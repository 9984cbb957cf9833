//! Choosing the data source of one run.
//!
//! A run is driven either live — the category root is fetched over the
//! network, each planned article is fetched, and every fetched document is
//! written through the cache — or in replay, where the category root and
//! every article come from the cache alone, with no network traffic and no
//! pacing. The default is replay.

use vstd::prelude::*;
use crate::catalog::ArticleRecord;

verus! {

/// Which data source drives a run.
#[derive(Clone, Copy, Debug, PartialEq, Eq, Structural)]
pub enum Mode {
    /// Fetch over the network and write every document through the cache.
    Live,
    /// Read every document from the cache; no network, no pacing.
    Replay,
}

/// The mode a run uses when nothing was chosen: replay.
pub fn default_mode() -> (m: Mode)
    ensures
        m is Replay,
{
    Mode::Replay
}

/// The mode the local-data flag selects: replay when set, live otherwise.
pub fn mode_of_flag(use_local: bool) -> (m: Mode)
    ensures
        (m is Replay) == use_local,
{
    if use_local {
        Mode::Replay
    } else {
        Mode::Live
    }
}

/// Replay-mode parity: both modes pass decoded article records through
/// unchanged — a completed live session's articles are exactly the records
/// delivered to it ([`crate::traverse::LiveSession::deliver`] appends each
/// record as delivered), and a replay run's articles are exactly the cached
/// records it enumerated ([`crate::traverse::replay_outputs`]). So from an
/// identical set of cached documents — equal sequences of decoded records —
/// the two modes' article outputs are equal.
pub proof fn lemma_mode_parity(
    decoded: Seq<ArticleRecord>,
    live_articles: Seq<ArticleRecord>,
    replay_articles: Seq<ArticleRecord>,
)
    requires
        live_articles == decoded,
        replay_articles == decoded,
    ensures
        live_articles == replay_articles,
{
}

} // verus!
