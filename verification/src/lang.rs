//! Language codes and per-language text mappings.
//!
//! The catalog carries every piece of display text in up to three languages.
//! Downstream steps consume exactly one of them, the primary language; a
//! mapping that lacks the primary entry where it is consumed is a decode-time
//! contract violation.

use vstd::prelude::*;

verus! {

/// A language code of the catalog's fixed set.
#[derive(Clone, Copy, Debug, PartialEq, Eq, Structural)]
pub enum Lang {
    Kr,
    En,
    Cn,
}

/// The single language whose content the export consumes.
pub open spec fn primary_lang() -> Lang {
    Lang::Kr
}

/// Two mappings are equivalent when they store equal text under every
/// language.
pub open spec fn lang_map_eqv(a: LangMap, b: LangMap) -> bool {
    forall|l: Lang| a.spec_get(l) == b.spec_get(l)
}

/// A copy of one optional text slot.
fn copy_slot(slot: &Option<String>) -> (r: Option<String>)
    ensures
        match r {
            Some(s) => slot is Some && s@ == (slot->0)@,
            None => slot is None,
        },
{
    match slot {
        Some(s) => Some(s.clone()),
        None => None,
    }
}

/// A mapping from language code to a text value. Keys are unique by
/// construction (one slot per language) and their order is irrelevant.
#[derive(Clone, Debug)]
pub struct LangMap {
    pub kr: Option<String>,
    pub en: Option<String>,
    pub cn: Option<String>,
}

impl LangMap {
    /// The entry stored under `l`, as a sequence of characters.
    pub open spec fn spec_get(self, l: Lang) -> Option<Seq<char>> {
        let slot = match l {
            Lang::Kr => self.kr,
            Lang::En => self.en,
            Lang::Cn => self.cn,
        };
        match slot {
            Some(s) => Some(s@),
            None => None,
        }
    }

    /// Whether an entry for the primary language is present.
    pub open spec fn has_primary(self) -> bool {
        self.spec_get(primary_lang()) is Some
    }

    /// The primary-language entry; the empty text where none is stored.
    pub open spec fn primary(self) -> Seq<char> {
        match self.spec_get(primary_lang()) {
            Some(s) => s,
            None => Seq::empty(),
        }
    }

    /// An empty mapping.
    pub fn new() -> (r: LangMap)
        ensures
            forall|l: Lang| r.spec_get(l) is None,
    {
        LangMap { kr: None, en: None, cn: None }
    }

    /// Stores `text` under `l`, replacing any prior entry for `l` and
    /// leaving the other languages unchanged.
    pub fn set(&mut self, l: Lang, text: String)
        ensures
            final(self).spec_get(l) == Some::<Seq<char>>(text@),
            forall|m: Lang| m != l ==> final(self).spec_get(m) == old(self).spec_get(m),
    {
        match l {
            Lang::Kr => self.kr = Some(text),
            Lang::En => self.en = Some(text),
            Lang::Cn => self.cn = Some(text),
        }
    }

    /// A copy of this mapping holding equal text under every language.
    pub fn duplicate(&self) -> (r: LangMap)
        ensures
            lang_map_eqv(r, *self),
    {
        LangMap {
            kr: copy_slot(&self.kr),
            en: copy_slot(&self.en),
            cn: copy_slot(&self.cn),
        }
    }

    /// A copy of the entry stored under `l`, if any.
    pub fn get(&self, l: Lang) -> (r: Option<String>)
        ensures
            match r {
                Some(s) => self.spec_get(l) == Some::<Seq<char>>(s@),
                None => self.spec_get(l) is None,
            },
    {
        let slot = match l {
            Lang::Kr => &self.kr,
            Lang::En => &self.en,
            Lang::Cn => &self.cn,
        };
        match slot {
            Some(s) => Some(s.clone()),
            None => None,
        }
    }

    /// A copy of the primary-language entry.
    pub fn get_primary(&self) -> (r: String)
        requires
            self.has_primary(),
        ensures
            r@ == self.primary(),
    {
        match self.get(Lang::Kr) {
            Some(s) => s,
            None => {
                assert(false);
                String::new()
            },
        }
    }
}

} // verus!
