//! The orchestrated decode as a state machine: each step takes the engine's
//! reply to the last request and yields the next request. Whoever drives it
//! performs the requests against the engine.
use vstd::prelude::*;

use crate::config::{attribute_bytes, DracoDecodeConfig, MeshDecodeResult, INDEX_BYTES};
use crate::native::{converts_to, descriptors_of, truncate_to_written, MeshCache, MeshConfig};

verus! {

/// What the engine is asked to do next.
pub enum NativeRequest {
    /// Cache the input bytes and report the handle.
    CacheMesh,
    /// Report the metadata of the cached mesh.
    QueryConfig { handle: u64 },
    /// Decode the cached mesh into a zeroed buffer of `capacity` bytes.
    DecodeToBuffer { handle: u64, capacity: usize },
    /// Release the cached mesh, then hand `result` to the caller.
    Release { handle: u64, result: Option<MeshDecodeResult> },
    /// Nothing was cached: the decode produced nothing.
    Fail,
}

/// The engine's answer to the last request.
pub enum NativeReply {
    /// The handle of the cached mesh; 0 when nothing was cached.
    Cached { handle: u64 },
    /// Whether the query succeeded, and the metadata it filled in.
    Config { found: bool, config: MeshConfig },
    /// The buffer decoded into, and the length the engine says it wrote.
    Decoded { buffer: Vec<u8>, written: usize },
}

/// Where an orchestrated decode stands.
pub enum MeshDecodeSession {
    /// The input has been submitted for caching.
    Creating,
    /// A cache is held and its metadata has been asked for.
    Querying { cache: MeshCache },
    /// A cache is held and a decode into a buffer sized by `config` was asked for.
    Decoding { cache: MeshCache, config: DracoDecodeConfig },
    /// The decode is over; any cache has been handed back for release.
    Finished,
}

/// The phase of a session, with the handle it owns.
pub enum Phase {
    Creating,
    Querying { handle: u64 },
    Decoding { handle: u64 },
    Finished,
}

/// The kind of a request, with the handle it names.
pub enum Call {
    CacheMesh,
    QueryConfig { handle: u64 },
    DecodeToBuffer { handle: u64 },
    Release { handle: u64 },
    Fail,
}

impl MeshDecodeSession {
    pub open spec fn phase(self) -> Phase {
        match self {
            MeshDecodeSession::Creating => Phase::Creating,
            MeshDecodeSession::Querying { cache } => Phase::Querying { handle: cache.spec_handle() },
            MeshDecodeSession::Decoding { cache, .. } => Phase::Decoding {
                handle: cache.spec_handle(),
            },
            MeshDecodeSession::Finished => Phase::Finished,
        }
    }

    /// A fresh session and its first request: cache the input.
    pub fn start() -> (r: (MeshDecodeSession, NativeRequest))
        ensures
            r.0.phase() == Phase::Creating,
            r.1.call() == Call::CacheMesh,
    {
        (MeshDecodeSession::Creating, NativeRequest::CacheMesh)
    }
}

impl NativeRequest {
    pub open spec fn call(self) -> Call {
        match self {
            NativeRequest::CacheMesh => Call::CacheMesh,
            NativeRequest::QueryConfig { handle } => Call::QueryConfig { handle },
            NativeRequest::DecodeToBuffer { handle, .. } => Call::DecodeToBuffer { handle },
            NativeRequest::Release { handle, .. } => Call::Release { handle },
            NativeRequest::Fail => Call::Fail,
        }
    }
}

/// Size of the buffer that the metadata `c` calls for.
pub open spec fn native_buffer_size(c: MeshConfig) -> nat {
    (c.index_count * INDEX_BYTES + attribute_bytes(
        c.vertex_count as nat,
        descriptors_of(c.attributes@),
    )) as nat
}

/// One step of the protocol on phases: the next phase and the next call.
pub open spec fn transition(p: Phase, reply: NativeReply) -> (Phase, Call) {
    match p {
        Phase::Creating => match reply {
            NativeReply::Cached { handle } => if handle != 0 {
                (Phase::Querying { handle }, Call::QueryConfig { handle })
            } else {
                (Phase::Finished, Call::Fail)
            },
            _ => (Phase::Finished, Call::Fail),
        },
        Phase::Querying { handle } => match reply {
            NativeReply::Config { found, config } => if found && native_buffer_size(config)
                <= usize::MAX {
                (Phase::Decoding { handle }, Call::DecodeToBuffer { handle })
            } else {
                (Phase::Finished, Call::Release { handle })
            },
            _ => (Phase::Finished, Call::Release { handle }),
        },
        Phase::Decoding { handle } => (Phase::Finished, Call::Release { handle }),
        Phase::Finished => (Phase::Finished, Call::Fail),
    }
}

/// Whether a decode reply is accepted: the buffer has the size the config
/// calls for, and the engine wrote at least one byte and no more than that.
pub open spec fn decode_accepted(session: MeshDecodeSession, reply: NativeReply) -> bool {
    &&& session matches MeshDecodeSession::Decoding { config, .. }
    &&& reply matches NativeReply::Decoded { buffer, written }
    &&& buffer@.len() == config.buffer_size()
    &&& 0 < written <= buffer@.len()
}

/// Whether `res` is what an accepted decode reply yields: the written bytes
/// and the queried config.
pub open spec fn decoded_from(
    session: MeshDecodeSession,
    reply: NativeReply,
    res: MeshDecodeResult,
) -> bool {
    &&& session matches MeshDecodeSession::Decoding { config, .. }
    &&& reply matches NativeReply::Decoded { buffer, written }
    &&& res.config == config
    &&& res.data@ == buffer@.take(written as int)
}

/// Advances an orchestrated decode by the engine's reply to the last
/// request. Any failure once a cache is held ends in a release of it.
pub fn decode_mesh_with_config(session: MeshDecodeSession, reply: NativeReply) -> (r: (
    MeshDecodeSession,
    NativeRequest,
))
    ensures
        (r.0.phase(), r.1.call()) == transition(session.phase(), reply),
        r.1 matches NativeRequest::DecodeToBuffer { capacity, .. } ==> {
            &&& reply matches NativeReply::Config { config: native, .. }
            &&& r.0 matches MeshDecodeSession::Decoding { config, .. }
            &&& converts_to(native, config)
            &&& capacity == config.buffer_size()
        },
        r.1 matches NativeRequest::Release { result, .. } ==> (result is Some <==> decode_accepted(
            session,
            reply,
        )),
        r.1 matches NativeRequest::Release { result: Some(res), .. } ==> decoded_from(
            session,
            reply,
            res,
        ),
{
    match session {
        MeshDecodeSession::Creating => match reply {
            NativeReply::Cached { handle } => match MeshCache::new(handle) {
                Some(cache) => (
                    MeshDecodeSession::Querying { cache },
                    NativeRequest::QueryConfig { handle },
                ),
                None => (MeshDecodeSession::Finished, NativeRequest::Fail),
            },
            _ => (MeshDecodeSession::Finished, NativeRequest::Fail),
        },
        MeshDecodeSession::Querying { cache } => {
            let sized = match reply {
                NativeReply::Config { found, config } => match MeshCache::config_from_reply(
                    found,
                    config,
                ) {
                    Some(config) => match config.checked_buffer_size() {
                        Some(capacity) => Some((config, capacity)),
                        None => None,
                    },
                    None => None,
                },
                _ => None,
            };
            match sized {
                Some((config, capacity)) => {
                    let handle = cache.handle();
                    (
                        MeshDecodeSession::Decoding { cache, config },
                        NativeRequest::DecodeToBuffer { handle, capacity },
                    )
                },
                None => (
                    MeshDecodeSession::Finished,
                    NativeRequest::Release { handle: cache.release(), result: None },
                ),
            }
        },
        MeshDecodeSession::Decoding { cache, config } => {
            let handle = cache.release();
            let result = match reply {
                NativeReply::Decoded { buffer, written } => {
                    let len = buffer.len();
                    match config.checked_buffer_size() {
                        Some(capacity) => if capacity == len {
                            match truncate_to_written(buffer, written) {
                                Some(data) => Some(MeshDecodeResult { data, config }),
                                None => None,
                            }
                        } else {
                            None
                        },
                        None => None,
                    }
                },
                _ => None,
            };
            (MeshDecodeSession::Finished, NativeRequest::Release { handle, result })
        },
        MeshDecodeSession::Finished => (MeshDecodeSession::Finished, NativeRequest::Fail),
    }
}

/// The calls a session in phase `p` makes on the given replies, in order.
pub open spec fn calls_after(p: Phase, replies: Seq<NativeReply>) -> Seq<Call>
    decreases replies.len(),
{
    if replies.len() == 0 {
        Seq::empty()
    } else {
        let next = transition(p, replies[0]);
        seq![next.1] + calls_after(next.0, replies.drop_first())
    }
}

/// The phase a session in phase `p` reaches on the given replies.
pub open spec fn phase_after(p: Phase, replies: Seq<NativeReply>) -> Phase
    decreases replies.len(),
{
    if replies.len() == 0 {
        p
    } else {
        phase_after(transition(p, replies[0]).0, replies.drop_first())
    }
}

/// How many of the calls release a cache.
pub open spec fn release_count(calls: Seq<Call>) -> nat
    decreases calls.len(),
{
    if calls.len() == 0 {
        0
    } else {
        (if calls[0] is Release {
            1nat
        } else {
            0nat
        }) + release_count(calls.drop_first())
    }
}

/// Whether a call names no handle or names `h`.
pub open spec fn names_only(c: Call, h: u64) -> bool {
    match c {
        Call::QueryConfig { handle } => handle == h,
        Call::DecodeToBuffer { handle } => handle == h,
        Call::Release { handle } => handle == h,
        _ => true,
    }
}

proof fn lemma_calls_unfold(p: Phase, replies: Seq<NativeReply>)
    requires
        replies.len() > 0,
    ensures
        calls_after(p, replies)[0] == transition(p, replies[0]).1,
        calls_after(p, replies).drop_first() == calls_after(
            transition(p, replies[0]).0,
            replies.drop_first(),
        ),
        calls_after(p, replies).len() == replies.len(),
{
    lemma_calls_len(p, replies);
    let next = transition(p, replies[0]);
    assert((seq![next.1] + calls_after(next.0, replies.drop_first())).drop_first() =~= calls_after(
        next.0,
        replies.drop_first(),
    ));
}

proof fn lemma_calls_len(p: Phase, replies: Seq<NativeReply>)
    ensures
        calls_after(p, replies).len() == replies.len(),
    decreases replies.len(),
{
    if replies.len() > 0 {
        lemma_calls_len(transition(p, replies[0]).0, replies.drop_first());
    }
}

/// A finished session only ever fails, and stays finished.
proof fn lemma_finished_stays(replies: Seq<NativeReply>)
    ensures
        forall|i: int|
            0 <= i < calls_after(Phase::Finished, replies).len() ==> #[trigger] calls_after(
                Phase::Finished,
                replies,
            )[i] == Call::Fail,
        release_count(calls_after(Phase::Finished, replies)) == 0,
        phase_after(Phase::Finished, replies) == Phase::Finished,
        calls_after(Phase::Finished, replies).len() == replies.len(),
    decreases replies.len(),
{
    lemma_calls_len(Phase::Finished, replies);
    if replies.len() > 0 {
        lemma_finished_stays(replies.drop_first());
        lemma_calls_unfold(Phase::Finished, replies);
        let calls = calls_after(Phase::Finished, replies);
        assert forall|i: int| 0 <= i < calls.len() implies #[trigger] calls[i] == Call::Fail by {
            if i > 0 {
                assert(calls[i] == calls.drop_first()[i - 1]);
            }
        }
    }
}

/// From a phase that holds `h`, every call names only `h`, at most one
/// call releases, and one has released exactly when the session finished.
proof fn lemma_holding_releases_once(p: Phase, h: u64, replies: Seq<NativeReply>)
    requires
        p == (Phase::Querying { handle: h }) || p == (Phase::Decoding { handle: h }),
    ensures
        release_count(calls_after(p, replies)) == (if phase_after(p, replies) is Finished {
            1nat
        } else {
            0nat
        }),
        forall|i: int|
            0 <= i < calls_after(p, replies).len() ==> names_only(
                #[trigger] calls_after(p, replies)[i],
                h,
            ),
        phase_after(p, replies) is Finished || phase_after(p, replies) == (Phase::Querying {
            handle: h,
        }) || phase_after(p, replies) == (Phase::Decoding { handle: h }),
        p is Querying && replies.len() >= 2 ==> phase_after(p, replies) is Finished,
        p is Decoding && replies.len() >= 1 ==> phase_after(p, replies) is Finished,
    decreases replies.len(),
{
    lemma_calls_len(p, replies);
    if replies.len() > 0 {
        let next = transition(p, replies[0]);
        let rest = replies.drop_first();
        lemma_calls_unfold(p, replies);
        let calls = calls_after(p, replies);
        if next.0 is Finished {
            lemma_finished_stays(rest);
            assert(release_count(calls) == 1 + release_count(calls.drop_first()));
        } else {
            lemma_holding_releases_once(next.0, h, rest);
            assert(release_count(calls) == release_count(calls.drop_first()));
        }
        assert forall|i: int| 0 <= i < calls.len() implies names_only(#[trigger] calls[i], h) by {
            if i > 0 {
                assert(calls[i] == calls.drop_first()[i - 1]);
            }
        }
    }
}

/// When the engine caches nothing (handle 0), the session never releases,
/// queries or decodes: every later call is a plain failure.
pub proof fn lemma_no_cache_no_release(replies: Seq<NativeReply>)
    requires
        replies.len() > 0,
        replies[0] matches NativeReply::Cached { handle } && handle == 0,
    ensures
        forall|i: int|
            0 <= i < calls_after(Phase::Creating, replies).len() ==> #[trigger] calls_after(
                Phase::Creating,
                replies,
            )[i] == Call::Fail,
        release_count(calls_after(Phase::Creating, replies)) == 0,
{
    lemma_calls_unfold(Phase::Creating, replies);
    lemma_finished_stays(replies.drop_first());
    let calls = calls_after(Phase::Creating, replies);
    assert forall|i: int| 0 <= i < calls.len() implies #[trigger] calls[i] == Call::Fail by {
        if i > 0 {
            assert(calls[i] == calls.drop_first()[i - 1]);
        }
    }
}

/// When the engine caches a mesh under a nonzero handle `h`, whatever the
/// later replies: every call names `h` alone, the cache is released at most
/// once, it has been released exactly once when the session is finished,
/// and the session is finished after at most three replies.
pub proof fn lemma_cache_released_once(h: u64, replies: Seq<NativeReply>)
    requires
        h != 0,
        replies.len() > 0,
        replies[0] == (NativeReply::Cached { handle: h }),
    ensures
        release_count(calls_after(Phase::Creating, replies)) == (if phase_after(
            Phase::Creating,
            replies,
        ) is Finished {
            1nat
        } else {
            0nat
        }),
        replies.len() >= 3 ==> phase_after(Phase::Creating, replies) is Finished,
        forall|i: int|
            0 <= i < calls_after(Phase::Creating, replies).len() ==> names_only(
                #[trigger] calls_after(Phase::Creating, replies)[i],
                h,
            ),
{
    let rest = replies.drop_first();
    let q = Phase::Querying { handle: h };
    lemma_calls_unfold(Phase::Creating, replies);
    lemma_holding_releases_once(q, h, rest);
    let calls = calls_after(Phase::Creating, replies);
    assert(release_count(calls) == release_count(calls.drop_first()));
    assert forall|i: int| 0 <= i < calls.len() implies names_only(#[trigger] calls[i], h) by {
        if i > 0 {
            assert(calls[i] == calls.drop_first()[i - 1]);
        }
    }
}

/// An accepted decode never holds more bytes than the queried config's
/// estimate, and holds exactly as many as the engine reported writing.
pub proof fn lemma_result_within_estimate(
    session: MeshDecodeSession,
    reply: NativeReply,
    res: MeshDecodeResult,
)
    requires
        decode_accepted(session, reply),
        decoded_from(session, reply, res),
    ensures
        reply matches NativeReply::Decoded { written, .. } && res.data@.len() == written,
        res.data@.len() <= res.config.buffer_size(),
{
}

} // verus!
