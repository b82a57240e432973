//! The display hub's bookkeeping: which client display sessions exist, who
//! watches them, which one a request means, and when an unwatched session is
//! closed. The hub's loop performs what these functions decide.
use vstd::prelude::*;

use crate::capabilities::opt_string;
use crate::config::opt_str_view;
use crate::config::clamp;
use crate::encode::EncoderKind;
use crate::hexid::{format_hex, hex_of, parse_hex, parse_hex_exec};
use crate::text::{
    decimal_of, push_decimal,
    chars_eq, chars_of, chars_starts_with_str, find_exec, find_from, is_ascii_digit, lemma_find_from,
    lemma_scan, scan, scan_exec, starts_with, string_from, string_of, sub_chars, CharClass,
};

verus! {

broadcast use vstd::string::group_string_axioms;

/// How long a session that has had a viewer stays open after the last one
/// left, in nanoseconds.
pub const IDLE_AFTER_LAST_VIEWER_NANOS: u128 = 120_000_000_000;

/// How long a session waits for its first viewer, in nanoseconds.
pub const WAITING_FOR_FIRST_VIEWER_NANOS: u128 = 30_000_000_000;

pub open spec fn idle_limit(ever_attached: bool) -> u128 {
    if ever_attached {
        IDLE_AFTER_LAST_VIEWER_NANOS
    } else {
        WAITING_FOR_FIRST_VIEWER_NANOS
    }
}

/// A session is closed only when nobody is attached, nothing still receives
/// its video, and it has been idle for its limit.
pub fn should_reap_idle_session(
    viewers: usize,
    video_receivers: usize,
    ever_attached: bool,
    idle_for_nanos: u128,
) -> (r: bool)
    ensures
        r == (viewers == 0 && video_receivers == 0 && idle_for_nanos >= idle_limit(ever_attached)),
{
    if viewers > 0 || video_receivers > 0 {
        return false;
    }
    let limit = if ever_attached {
        IDLE_AFTER_LAST_VIEWER_NANOS
    } else {
        WAITING_FOR_FIRST_VIEWER_NANOS
    };
    idle_for_nanos >= limit
}

#[derive(Debug, Clone, Copy)]
pub struct HubConfig {
    pub encode_kind: EncoderKind,
    pub bitrate_kbps: u32,
    pub refresh_hz: u32,
    pub default_width: u32,
    pub default_height: u32,
    pub has_explicit_override: bool,
}

pub open spec fn spec_target_resolution(cfg: HubConfig, client_width: u32, client_height: u32) -> (
    u32,
    u32,
) {
    if cfg.default_width > 0 && cfg.default_height > 0 {
        (cfg.default_width, cfg.default_height)
    } else if client_width > 0 && client_height > 0 {
        (client_width, client_height)
    } else {
        (1920, 1080)
    }
}

/// The size of a new client display: the configured size when one is set,
/// else the client's own, else 1920x1080.
pub fn target_resolution(cfg: &HubConfig, client_width: u32, client_height: u32) -> (r: (
    u32,
    u32,
))
    ensures
        r == spec_target_resolution(*cfg, client_width, client_height),
{
    if cfg.default_width > 0 && cfg.default_height > 0 {
        (cfg.default_width, cfg.default_height)
    } else if client_width > 0 && client_height > 0 {
        (client_width, client_height)
    } else {
        (1920, 1080)
    }
}

/// The session ids in a list of keys that `id` picks: the id itself if it is
/// there; with no id (or an empty one), the only session if there is exactly
/// one.
pub open spec fn spec_resolve_session_id(keys: Seq<Seq<char>>, id: Option<Seq<char>>) -> Option<
    Seq<char>,
> {
    if id is Some && id->0.len() > 0 {
        if keys.contains(id->0) {
            id
        } else {
            None
        }
    } else if keys.len() == 1 {
        Some(keys[0])
    } else {
        None
    }
}

/// Which of `keys` the request for `id` means; an unknown id means none.
pub fn resolve_session_id(keys: &[String], id: Option<&str>) -> (r: Option<String>)
    ensures
        opt_string(r) == spec_resolve_session_id(keys@.map_values(|k: String| k@), opt_str_view(id)),
{
    let ghost ks = keys@.map_values(|k: String| k@);
    match id {
        Some(req) => {
            let rq = chars_of(req);
            if rq.len() > 0 {
                let mut i: usize = 0;
                while i < keys.len()
                    invariant
                        i <= keys@.len(),
                        rq@ == req@,
                        id == Some(req),
                        req@.len() > 0,
                        ks == keys@.map_values(|k: String| k@),
                        forall|j: int| 0 <= j < i ==> ks[j] != req@,
                    decreases keys@.len() - i,
                {
                    let k = chars_of(keys[i].as_str());
                    if chars_eq(k.as_slice(), rq.as_slice()) {
                        assert(ks[i as int] == req@);
                        assert(ks.contains(req@));
                        return Some(string_of(rq.as_slice()));
                    }
                    i += 1;
                }
                assert(!ks.contains(req@));
                return None;
            }
        },
        None => {},
    }
    if keys.len() == 1 {
        Some(keys[0].clone())
    } else {
        None
    }
}

/// One client display session, as the hub keeps it.
#[derive(Debug)]
pub struct SessionEntry {
    pub id: String,
    pub name: String,
    pub client_key: Option<String>,
    pub width: u32,
    pub height: u32,
    pub bitrate_kbps: Option<u32>,
    pub viewers: usize,
    pub ever_attached: bool,
    /// When the session became idle (or, after a resize, its idle deadline),
    /// on the hub's clock; `None` while it is watched.
    pub idle_since: Option<u128>,
}

pub open spec fn key_is(e: SessionEntry, k: Seq<char>) -> bool {
    e.client_key is Some && e.client_key->0@ == k
}

/// The first index at or after `i` whose session has id `id` (the length if
/// none).
pub open spec fn id_from(s: Seq<SessionEntry>, id: Seq<char>, i: int) -> int
    decreases s.len() - i,
{
    if i < 0 || i >= s.len() {
        s.len() as int
    } else if s[i].id@ == id {
        i
    } else {
        id_from(s, id, i + 1)
    }
}

/// The first index at or after `i` whose session has client key `k`.
pub open spec fn key_from(s: Seq<SessionEntry>, k: Seq<char>, i: int) -> int
    decreases s.len() - i,
{
    if i < 0 || i >= s.len() {
        s.len() as int
    } else if key_is(s[i], k) {
        i
    } else {
        key_from(s, k, i + 1)
    }
}

pub open spec fn id_index(s: Seq<SessionEntry>, id: Seq<char>) -> int {
    id_from(s, id, 0)
}

pub open spec fn key_index(s: Seq<SessionEntry>, k: Seq<char>) -> int {
    key_from(s, k, 0)
}

pub proof fn lemma_id_from(s: Seq<SessionEntry>, id: Seq<char>, i: int)
    requires
        0 <= i <= s.len(),
    ensures
        i <= id_from(s, id, i) <= s.len(),
        id_from(s, id, i) < s.len() ==> s[id_from(s, id, i)].id@ == id,
        forall|j: int| i <= j < id_from(s, id, i) ==> (#[trigger] s[j]).id@ != id,
    decreases s.len() - i,
{
    if i < s.len() && s[i].id@ != id {
        lemma_id_from(s, id, i + 1);
    }
}

pub proof fn lemma_key_from(s: Seq<SessionEntry>, k: Seq<char>, i: int)
    requires
        0 <= i <= s.len(),
    ensures
        i <= key_from(s, k, i) <= s.len(),
        key_from(s, k, i) < s.len() ==> key_is(s[key_from(s, k, i)], k),
        forall|j: int| i <= j < key_from(s, k, i) ==> !key_is(#[trigger] s[j], k),
    decreases s.len() - i,
{
    if i < s.len() && !key_is(s[i], k) {
        lemma_key_from(s, k, i + 1);
    }
}

/// How a session ranks when no request names one: by its id read as a
/// hexadecimal counter (0 where it does not parse).
pub open spec fn rank(e: SessionEntry) -> u64 {
    match parse_hex(e.id@) {
        Some(v) => v,
        None => 0,
    }
}

/// The index of the highest-ranked session among the first `n` (only
/// unwatched ones where `only_idle`), the later one on a tie; -1 if none.
pub open spec fn best_upto(s: Seq<SessionEntry>, n: int, only_idle: bool) -> int
    decreases n,
{
    if n <= 0 {
        -1
    } else {
        let b = best_upto(s, n - 1, only_idle);
        if (!only_idle || s[n - 1].viewers == 0) && (b < 0 || rank(s[b]) <= rank(s[n - 1])) {
            n - 1
        } else {
            b
        }
    }
}

proof fn lemma_best_upto(s: Seq<SessionEntry>, n: int, only_idle: bool)
    requires
        0 <= n <= s.len(),
    ensures
        -1 <= best_upto(s, n, only_idle) < n,
        best_upto(s, n, only_idle) >= 0 ==> (!only_idle || s[best_upto(s, n, only_idle)].viewers
            == 0),
        best_upto(s, n, only_idle) < 0 ==> forall|j: int|
            0 <= j < n ==> only_idle && (#[trigger] s[j]).viewers != 0,
    decreases n,
{
    if n > 0 {
        lemma_best_upto(s, n - 1, only_idle);
    }
}

/// The session that an attach request means.
pub open spec fn spec_resolve_attach(
    s: Seq<SessionEntry>,
    id: Option<Seq<char>>,
    key: Option<Seq<char>>,
) -> Option<Seq<char>> {
    if id is Some && id->0.len() > 0 {
        let req = id->0;
        if id_index(s, req) < s.len() {
            Some(req)
        } else if key_index(s, req) < s.len() {
            Some(s[key_index(s, req)].id@)
        } else {
            None
        }
    } else if key is Some && key->0.len() > 0 && key_index(s, key->0) < s.len() {
        Some(s[key_index(s, key->0)].id@)
    } else if s.len() == 1 {
        Some(s[0].id@)
    } else if s.len() == 0 {
        None
    } else if best_upto(s, s.len() as int, true) >= 0 {
        Some(s[best_upto(s, s.len() as int, true)].id@)
    } else {
        Some(s[best_upto(s, s.len() as int, false)].id@)
    }
}

/// The session that a request for `id` means: the session with that id, else
/// the one whose client key it is; with no id, the only session.
pub open spec fn spec_resolve_id(s: Seq<SessionEntry>, id: Option<Seq<char>>) -> Option<Seq<char>> {
    if id is Some && id->0.len() > 0 {
        let req = id->0;
        if id_index(s, req) < s.len() {
            Some(req)
        } else if key_index(s, req) < s.len() {
            Some(s[key_index(s, req)].id@)
        } else {
            None
        }
    } else if s.len() == 1 {
        Some(s[0].id@)
    } else {
        None
    }
}

/// Ids are distinct, and so are the client keys that sessions have.
pub open spec fn sessions_wf(s: Seq<SessionEntry>) -> bool {
    &&& forall|i: int, j: int| 0 <= i < j < s.len() ==> (#[trigger] s[i]).id@ != (#[trigger] s[j]).id@
    &&& forall|i: int, j: int|
        0 <= i < j < s.len() && (#[trigger] s[i]).client_key is Some && (
        #[trigger] s[j]).client_key is Some ==> s[i].client_key->0@ != s[j].client_key->0@
}

/// What the hub does with an acquire request.
#[derive(Debug)]
pub enum AcquirePlan {
    /// The client already has a session of the wanted size: hand it out again.
    Reuse { id: String },
    /// Open a session of this size, after closing `replace` where it is set.
    Open { width: u32, height: u32, replace: Option<String> },
}

/// What the hub does with an attach request.
#[derive(Debug)]
pub enum AttachPlan {
    Existing { id: String },
    /// No session exists and none was named: open a default one first.
    OpenDefault { width: u32, height: u32 },
    NoSession,
}

/// What the hub does with a resize request.
#[derive(Debug)]
pub enum ResizePlan {
    Unknown,
    Unchanged,
    /// Open a session of the new size and carry this over to it.
    Reopen { carry: ResizeCarry },
}

#[derive(Debug)]
pub struct ResizeCarry {
    pub name: String,
    pub key: Option<String>,
    pub bitrate_kbps: Option<u32>,
    pub viewers: usize,
    pub ever_attached: bool,
}

pub struct SessionTable {
    sessions: Vec<SessionEntry>,
}

impl View for SessionTable {
    type V = Seq<SessionEntry>;

    closed spec fn view(&self) -> Seq<SessionEntry> {
        self.sessions@
    }
}

/// The entry `e` with `viewers`, `ever_attached` and `idle_since` changed.
pub open spec fn with_watch(e: SessionEntry, viewers: usize, ever: bool, idle: Option<u128>) -> SessionEntry {
    SessionEntry { viewers: viewers, ever_attached: ever, idle_since: idle, ..e }
}

impl SessionTable {
    pub fn new() -> (r: Self)
        ensures
            r@.len() == 0,
            sessions_wf(r@),
    {
        SessionTable { sessions: Vec::new() }
    }

    pub fn len(&self) -> (r: usize)
        ensures
            r == self@.len(),
    {
        self.sessions.len()
    }

    /// The session at position `i`.
    pub fn get(&self, i: usize) -> (r: &SessionEntry)
        requires
            i < self@.len(),
        ensures
            *r == self@[i as int],
    {
        &self.sessions[i]
    }

    /// The position of the session with id `id`.
    pub fn index_of_id(&self, id: &[char]) -> (r: usize)
        ensures
            r == id_index(self@, id@),
    {
        let mut i: usize = 0;
        while i < self.sessions.len()
            invariant
                i <= self@.len(),
                id_index(self@, id@) == id_from(self@, id@, i as int),
            decreases self@.len() - i,
        {
            let e = chars_of(self.sessions[i].id.as_str());
            if chars_eq(e.as_slice(), id) {
                return i;
            }
            i += 1;
        }
        i
    }

    /// The position of the session with client key `key`.
    pub fn index_of_key(&self, key: &[char]) -> (r: usize)
        ensures
            r == key_index(self@, key@),
    {
        let mut i: usize = 0;
        while i < self.sessions.len()
            invariant
                i <= self@.len(),
                key_index(self@, key@) == key_from(self@, key@, i as int),
            decreases self@.len() - i,
        {
            let hit = match &self.sessions[i].client_key {
                Some(k) => {
                    let kc = chars_of(k.as_str());
                    chars_eq(kc.as_slice(), key)
                },
                None => false,
            };
            if hit {
                return i;
            }
            i += 1;
        }
        i
    }

    /// The ids of all sessions.
    pub fn ids(&self) -> (r: Vec<String>)
        ensures
            r@.map_values(|k: String| k@) == self@.map_values(|e: SessionEntry| e.id@),
    {
        let mut out: Vec<String> = Vec::new();
        let mut i: usize = 0;
        while i < self.sessions.len()
            invariant
                i <= self@.len(),
                out@.map_values(|k: String| k@) == self@.take(i as int).map_values(
                    |e: SessionEntry| e.id@,
                ),
            decreases self@.len() - i,
        {
            let ghost before = out@;
            out.push(self.sessions[i].id.clone());
            assert(out@.map_values(|k: String| k@) =~= before.map_values(|k: String| k@).push(
                self@[i as int].id@,
            ));
            assert(self@.take(i + 1).map_values(|e: SessionEntry| e.id@) =~= self@.take(
                i as int,
            ).map_values(|e: SessionEntry| e.id@).push(self@[i as int].id@));
            i += 1;
        }
        assert(self@.take(self@.len() as int) =~= self@);
        out
    }

    fn best(&self, only_idle: bool) -> (r: Option<usize>)
        ensures
            match r {
                Some(i) => i as int == best_upto(self@, self@.len() as int, only_idle) && i
                    < self@.len(),
                None => best_upto(self@, self@.len() as int, only_idle) < 0,
            },
    {
        let mut best: Option<usize> = None;
        let mut best_rank: u64 = 0;
        let mut i: usize = 0;
        while i < self.sessions.len()
            invariant
                i <= self@.len(),
                match best {
                    Some(b) => b as int == best_upto(self@, i as int, only_idle) && b < i
                        && best_rank == rank(self@[b as int]),
                    None => best_upto(self@, i as int, only_idle) < 0,
                },
            decreases self@.len() - i,
        {
            let e = &self.sessions[i];
            if !only_idle || e.viewers == 0 {
                let ic = chars_of(e.id.as_str());
                let r = match parse_hex_exec(ic.as_slice()) {
                    Some(v) => v,
                    None => 0,
                };
                let take = match best {
                    Some(_) => best_rank <= r,
                    None => true,
                };
                if take {
                    best = Some(i);
                    best_rank = r;
                }
            }
            i += 1;
        }
        best
    }

    /// Which session a request for `id` means (`None` where it names none, or
    /// where none is named and there is not exactly one session).
    pub fn resolve_id(&self, id: Option<&str>) -> (r: Option<String>)
        ensures
            opt_string(r) == spec_resolve_id(self@, opt_str_view(id)),
    {
        if let Some(req) = id {
            let rq = chars_of(req);
            if rq.len() > 0 {
                let i = self.index_of_id(rq.as_slice());
                if i < self.sessions.len() {
                    return Some(string_of(rq.as_slice()));
                }
                let j = self.index_of_key(rq.as_slice());
                if j < self.sessions.len() {
                    return Some(self.sessions[j].id.clone());
                }
                return None;
            }
        }
        if self.sessions.len() == 1 {
            Some(self.sessions[0].id.clone())
        } else {
            None
        }
    }

    /// Which session an attach request means: the named one (by id, else by
    /// client key), else the client's own by key, else the only one, else the
    /// newest unwatched one, else the newest one.
    pub fn resolve_attach_session_id(&self, id: Option<&str>, key: Option<&str>) -> (r: Option<
        String,
    >)
        ensures
            opt_string(r) == spec_resolve_attach(self@, opt_str_view(id), opt_str_view(key)),
    {
        if let Some(req) = id {
            let rq = chars_of(req);
            if rq.len() > 0 {
                let i = self.index_of_id(rq.as_slice());
                if i < self.sessions.len() {
                    return Some(string_of(rq.as_slice()));
                }
                let j = self.index_of_key(rq.as_slice());
                if j < self.sessions.len() {
                    return Some(self.sessions[j].id.clone());
                }
                return None;
            }
        }
        if let Some(k) = key {
            let kc = chars_of(k);
            if kc.len() > 0 {
                let j = self.index_of_key(kc.as_slice());
                if j < self.sessions.len() {
                    return Some(self.sessions[j].id.clone());
                }
            }
        }
        if self.sessions.len() == 1 {
            return Some(self.sessions[0].id.clone());
        }
        if self.sessions.len() == 0 {
            return None;
        }
        match self.best(true) {
            Some(i) => Some(self.sessions[i].id.clone()),
            None => {
                proof {
                    lemma_best_upto(self@, self@.len() as int, false);
                }
                match self.best(false) {
                    Some(i) => Some(self.sessions[i].id.clone()),
                    None => None,
                }
            },
        }
    }

    /// How an acquire from a client (with its key) for a display of the
    /// client's size is served.
    pub fn acquire_plan(&self, cfg: &HubConfig, key: Option<&str>, width: u32, height: u32) -> (r:
        AcquirePlan)
        ensures
            ({
                let t = spec_target_resolution(*cfg, width, height);
                let ki = match opt_str_view(key) {
                    Some(k) => key_index(self@, k),
                    None => self@.len() as int,
                };
                if ki < self@.len() && self@[ki].width == t.0 && self@[ki].height == t.1 {
                    r matches AcquirePlan::Reuse { id } && id@ == self@[ki].id@
                } else if ki < self@.len() {
                    r matches AcquirePlan::Open { width: w, height: h, replace: Some(old) } && w
                        == t.0 && h == t.1 && old@ == self@[ki].id@
                } else {
                    r matches AcquirePlan::Open { width: w, height: h, replace: None } && w == t.0
                        && h == t.1
                }
            }),
    {
        let (tw, th) = target_resolution(cfg, width, height);
        if let Some(k) = key {
            let kc = chars_of(k);
            let j = self.index_of_key(kc.as_slice());
            if j < self.sessions.len() {
                let e = &self.sessions[j];
                if e.width == tw && e.height == th {
                    return AcquirePlan::Reuse { id: e.id.clone() };
                }
                return AcquirePlan::Open { width: tw, height: th, replace: Some(e.id.clone()) };
            }
        }
        AcquirePlan::Open { width: tw, height: th, replace: None }
    }

    /// How an attach request is served.
    pub fn attach_plan(&self, cfg: &HubConfig, id: Option<&str>, key: Option<&str>) -> (r:
        AttachPlan)
        ensures
            ({
                let chosen = spec_resolve_attach(self@, opt_str_view(id), opt_str_view(key));
                let unnamed = id is None || id->0@.len() == 0;
                match chosen {
                    Some(sid) => r matches AttachPlan::Existing { id: x } && x@ == sid,
                    None => if unnamed && self@.len() == 0 {
                        r matches AttachPlan::OpenDefault { width: w, height: h } && w == (if cfg.default_width > 0 {
                            cfg.default_width
                        } else {
                            1920
                        }) && h == (if cfg.default_height > 0 {
                            cfg.default_height
                        } else {
                            1080
                        })
                    } else {
                        r is NoSession
                    },
                }
            }),
    {
        match self.resolve_attach_session_id(id, key) {
            Some(sid) => AttachPlan::Existing { id: sid },
            None => {
                let unnamed = match id {
                    Some(s) => chars_of(s).len() == 0,
                    None => true,
                };
                if unnamed && self.sessions.len() == 0 {
                    let w = if cfg.default_width > 0 {
                        cfg.default_width
                    } else {
                        1920
                    };
                    let h = if cfg.default_height > 0 {
                        cfg.default_height
                    } else {
                        1080
                    };
                    AttachPlan::OpenDefault { width: w, height: h }
                } else {
                    AttachPlan::NoSession
                }
            },
        }
    }

    /// Marks the session with id `id` as reused by its client: it is idle from
    /// `now` if nobody watches it, else not idle.
    pub fn reuse(&mut self, id: &str, now: u128)
        requires
            sessions_wf(old(self)@),
        ensures
            sessions_wf(final(self)@),
            ({
                let i = id_index(old(self)@, id@);
                if i < old(self)@.len() {
                    let e = old(self)@[i];
                    final(self)@ == old(self)@.update(
                        i,
                        with_watch(
                            e,
                            e.viewers,
                            e.ever_attached,
                            if e.viewers == 0 {
                                Some(now)
                            } else {
                                None
                            },
                        ),
                    )
                } else {
                    final(self)@ == old(self)@
                }
            }),
    {
        let ic = chars_of(id);
        let i = self.index_of_id(ic.as_slice());
        if i < self.sessions.len() {
            let ghost s0 = self@;
            let idle = if self.sessions[i].viewers == 0 {
                Some(now)
            } else {
                None
            };
            self.sessions[i].idle_since = idle;
            proof {
                assert forall|a: int, b: int| 0 <= a < b < self@.len() implies (
                #[trigger] self@[a]).id@ != (#[trigger] self@[b]).id@ by {
                    assert(s0[a].id@ != s0[b].id@);
                }
                assert forall|a: int, b: int|
                    0 <= a < b < self@.len() && (#[trigger] self@[a]).client_key is Some && (
                    #[trigger] self@[b]).client_key is Some implies self@[a].client_key->0@
                    != self@[b].client_key->0@ by {
                    assert(s0[a].client_key->0@ != s0[b].client_key->0@);
                }
                assert(self@ =~= s0.update(
                    i as int,
                    with_watch(s0[i as int], s0[i as int].viewers, s0[i as int].ever_attached, idle),
                ));
            }
        }
    }

    /// Closes the session with id `id`: it leaves the table and is returned.
    pub fn remove(&mut self, id: &str) -> (r: Option<SessionEntry>)
        requires
            sessions_wf(old(self)@),
        ensures
            sessions_wf(final(self)@),
            ({
                let i = id_index(old(self)@, id@);
                if i < old(self)@.len() {
                    r == Some(old(self)@[i]) && final(self)@ == old(self)@.remove(i)
                } else {
                    r is None && final(self)@ == old(self)@
                }
            }),
    {
        let ic = chars_of(id);
        let i = self.index_of_id(ic.as_slice());
        if i < self.sessions.len() {
            let ghost s0 = self@;
            let e = self.sessions.remove(i);
            proof {
                assert forall|a: int, b: int| 0 <= a < b < self@.len() implies (
                #[trigger] self@[a]).id@ != (#[trigger] self@[b]).id@ by {
                    let a0 = if a < i { a } else { a + 1 };
                    let b0 = if b < i { b } else { b + 1 };
                    assert(self@[a] == s0[a0]);
                    assert(self@[b] == s0[b0]);
                }
                assert forall|a: int, b: int|
                    0 <= a < b < self@.len() && (#[trigger] self@[a]).client_key is Some && (
                    #[trigger] self@[b]).client_key is Some implies self@[a].client_key->0@
                    != self@[b].client_key->0@ by {
                    let a0 = if a < i { a } else { a + 1 };
                    let b0 = if b < i { b } else { b + 1 };
                    assert(self@[a] == s0[a0]);
                    assert(self@[b] == s0[b0]);
                }
            }
            Some(e)
        } else {
            None
        }
    }

    /// Adds a session. A session with the same id, and one with the same
    /// client key, are closed first.
    pub fn insert_entry(&mut self, entry: SessionEntry)
        requires
            sessions_wf(old(self)@),
        ensures
            sessions_wf(final(self)@),
            final(self)@ == without_key(without_id(old(self)@, entry.id@), entry.client_key).push(
                entry,
            ),
    {
        let id = entry.id.clone();
        let _ = self.remove(id.as_str());
        proof {
            lemma_without_id(old(self)@, entry.id@);
        }
        let ghost s1 = self@;
        if let Some(k) = &entry.client_key {
            let kc = chars_of(k.as_str());
            let j = self.index_of_key(kc.as_slice());
            if j < self.sessions.len() {
                let kid = self.sessions[j].id.clone();
                proof {
                    lemma_key_from(s1, k@, 0);
                    lemma_id_from(s1, kid@, 0);
                    // ids are distinct, so the key's session is the first with its id
                    if id_index(s1, kid@) < j {
                        assert(s1[id_index(s1, kid@)].id@ == s1[j as int].id@);
                    }
                }
                let _ = self.remove(kid.as_str());
            }
            proof {
                lemma_without_key(s1, k@);
            }
        }
        let ghost s2 = self@;
        assert(s2 == without_key(without_id(old(self)@, entry.id@), entry.client_key));
        self.sessions.push(entry);
        proof {
            let n = self@.len() - 1;
            assert forall|a: int, b: int| 0 <= a < b < self@.len() implies (
            #[trigger] self@[a]).id@ != (#[trigger] self@[b]).id@ by {
                if b == n {
                    assert(self@[a] == s2[a]);
                }
            }
            assert forall|a: int, b: int|
                0 <= a < b < self@.len() && (#[trigger] self@[a]).client_key is Some && (
                #[trigger] self@[b]).client_key is Some implies self@[a].client_key->0@
                != self@[b].client_key->0@ by {
                if b == n {
                    assert(self@[a] == s2[a]);
                }
            }
        }
    }

    /// Adds a session that was just opened, idle from `now`. A session with
    /// the same id, and one with the same client key, are closed first.
    pub fn insert_opened(&mut self, entry: SessionEntry, now: u128)
        requires
            sessions_wf(old(self)@),
        ensures
            sessions_wf(final(self)@),
            final(self)@ == without_key(without_id(old(self)@, entry.id@), entry.client_key).push(
                with_watch(entry, entry.viewers, entry.ever_attached, Some(now)),
            ),
    {
        let mut e = entry;
        e.idle_since = Some(now);
        self.insert_entry(e);
    }

    /// A viewer attaches to the session with id `id`: one more viewer, the
    /// session has now been watched, and it is no longer idle.
    pub fn attach(&mut self, id: &str) -> (r: bool)
        requires
            sessions_wf(old(self)@),
        ensures
            sessions_wf(final(self)@),
            r == (id_index(old(self)@, id@) < old(self)@.len()),
            final(self)@ == spec_attach(old(self)@, id@),
    {
        let ic = chars_of(id);
        let i = self.index_of_id(ic.as_slice());
        if i < self.sessions.len() {
            let ghost s0 = self@;
            let v = self.sessions[i].viewers.saturating_add(1);
            self.sessions[i].viewers = v;
            self.sessions[i].ever_attached = true;
            self.sessions[i].idle_since = None;
            proof {
                lemma_update_watch_wf(s0, i as int, v, true, None);
                assert(self@ =~= spec_attach(s0, id@));
            }
            true
        } else {
            false
        }
    }

    /// A viewer detaches from the session with id `id`: one viewer fewer, and
    /// with none left it is idle from `now`.
    pub fn detach(&mut self, id: &str, now: u128)
        requires
            sessions_wf(old(self)@),
        ensures
            sessions_wf(final(self)@),
            final(self)@ == spec_detach(old(self)@, id@, now),
    {
        let ic = chars_of(id);
        let i = self.index_of_id(ic.as_slice());
        if i < self.sessions.len() {
            let ghost s0 = self@;
            let v = self.sessions[i].viewers.saturating_sub(1);
            self.sessions[i].viewers = v;
            if v == 0 {
                self.sessions[i].idle_since = Some(now);
            }
            proof {
                lemma_update_watch_wf(s0, i as int, v, s0[i as int].ever_attached, self@[i as int].idle_since);
                assert(self@ =~= spec_detach(s0, id@, now));
            }
        }
    }

    /// The sessions that a key frame request for `id` goes to: the session it
    /// means, else every session when no id is given.
    pub fn idr_targets(&self, id: &str) -> (r: Vec<String>)
        ensures
            ({
                let req = if id@.len() == 0 {
                    None::<Seq<char>>
                } else {
                    Some(id@)
                };
                match spec_resolve_id(self@, req) {
                    Some(sid) => r@.len() == 1 && r@[0]@ == sid,
                    None => if id@.len() == 0 {
                        r@.map_values(|k: String| k@) == self@.map_values(|e: SessionEntry| e.id@)
                    } else {
                        r@.len() == 0
                    },
                }
            }),
    {
        let ic = chars_of(id);
        let req = if ic.len() == 0 {
            None
        } else {
            Some(id)
        };
        match self.resolve_id(req) {
            Some(sid) => vec![sid],
            None => if ic.len() == 0 {
                self.ids()
            } else {
                Vec::new()
            },
        }
    }

    /// How a resize of the session with id `id` to `width`x`height` goes.
    pub fn resize_plan(&self, id: &str, width: u32, height: u32) -> (r: ResizePlan)
        ensures
            ({
                let i = id_index(self@, id@);
                if i >= self@.len() {
                    r is Unknown
                } else if self@[i].width == width && self@[i].height == height {
                    r is Unchanged
                } else {
                    r matches ResizePlan::Reopen { carry } && carry.name@ == self@[i].name@
                        && opt_string(carry.key) == opt_string(self@[i].client_key)
                        && carry.bitrate_kbps == self@[i].bitrate_kbps && carry.viewers
                        == self@[i].viewers && carry.ever_attached == self@[i].ever_attached
                }
            }),
    {
        let ic = chars_of(id);
        let i = self.index_of_id(ic.as_slice());
        if i >= self.sessions.len() {
            return ResizePlan::Unknown;
        }
        let e = &self.sessions[i];
        if e.width == width && e.height == height {
            return ResizePlan::Unchanged;
        }
        let key = match &e.client_key {
            Some(k) => Some(k.clone()),
            None => None,
        };
        ResizePlan::Reopen {
            carry: ResizeCarry {
                name: e.name.clone(),
                key,
                bitrate_kbps: e.bitrate_kbps,
                viewers: e.viewers,
                ever_attached: e.ever_attached,
            },
        }
    }

    /// After a resize: the old session `old_id` is replaced by `entry`. Where
    /// the old session is gone, nothing changes and `false` comes back.
    pub fn replace_after_resize(&mut self, old_id: &str, entry: SessionEntry) -> (r: bool)
        requires
            sessions_wf(old(self)@),
        ensures
            sessions_wf(final(self)@),
            r == (id_index(old(self)@, old_id@) < old(self)@.len()),
            r ==> final(self)@ == without_key(
                without_id(without_id(old(self)@, old_id@), entry.id@),
                entry.client_key,
            ).push(entry),
            !r ==> final(self)@ == old(self)@,
    {
        match self.remove(old_id) {
            Some(_) => {
                self.insert_entry(entry);
                true
            },
            None => false,
        }
    }

    /// One tick of the idle timer at time `now`, with the number of video
    /// receivers of each session: a session idle for its limit is closed
    /// (and its id returned) when nobody watches it; one still watched stops
    /// counting as idle.
    pub fn reap_tick(&mut self, now: u128, receivers: &[usize]) -> (r: Vec<String>)
        requires
            sessions_wf(old(self)@),
            receivers@.len() == old(self)@.len(),
        ensures
            sessions_wf(final(self)@),
            final(self)@ == after_tick(old(self)@, receivers@, now),
            r@.map_values(|k: String| k@) == reaped_ids(old(self)@, receivers@, now),
    {
        let mut rest: Vec<SessionEntry> = Vec::new();
        std::mem::swap(&mut rest, &mut self.sessions);
        let ghost s0 = rest@;
        let mut closed: Vec<String> = Vec::new();
        let mut i: usize = 0;
        let n = receivers.len();
        assert(s0 == old(self)@);
        assert(self@ =~= Seq::<SessionEntry>::empty());
        assert(receivers@.skip(0) =~= receivers@);
        assert(s0.skip(0) =~= s0);
        assert(closed@.map_values(|k: String| k@) =~= Seq::<Seq<char>>::empty());
        assert(self@ + after_tick(rest@, receivers@.skip(0), now) =~= after_tick(s0, receivers@, now));
        assert(closed@.map_values(|k: String| k@) + reaped_ids(rest@, receivers@.skip(0), now) =~= reaped_ids(s0, receivers@, now));
        while rest.len() > 0
            invariant
                i <= receivers@.len(),
                n == receivers@.len(),
                i + rest@.len() == s0.len(),
                s0.len() == receivers@.len(),
                rest@ == s0.skip(i as int),
                self@ + after_tick(rest@, receivers@.skip(i as int), now) == after_tick(
                    s0,
                    receivers@,
                    now,
                ),
                closed@.map_values(|k: String| k@) + reaped_ids(rest@, receivers@.skip(i as int), now)
                    == reaped_ids(s0, receivers@, now),
            decreases rest@.len(),
        {
            let ghost r0 = rest@;
            let ghost rc0 = receivers@.skip(i as int);
            let ghost before = self@;
            let ghost cbefore = closed@;
            let mut e = rest.remove(0);
            assert(rest@ =~= r0.drop_first());
            assert(rc0.drop_first() =~= receivers@.skip(i + 1));
            assert(rc0[0] == receivers@[i as int]);
            assert(s0.skip(i + 1) =~= r0.drop_first());
            let mut keep = true;
            if let Some(at) = e.idle_since {
                let idle_for = if now >= at {
                    now - at
                } else {
                    0
                };
                let limit = if e.ever_attached {
                    IDLE_AFTER_LAST_VIEWER_NANOS
                } else {
                    WAITING_FOR_FIRST_VIEWER_NANOS
                };
                if idle_for >= limit {
                    if e.viewers == 0 && receivers[i] == 0 {
                        keep = false;
                    } else {
                        e.idle_since = None;
                    }
                }
            }
            if keep {
                self.sessions.push(e);
                assert(self@ =~= before + tick_one(r0[0], rc0[0], now));
            } else {
                closed.push(e.id.clone());
                assert(self@ =~= before + tick_one(r0[0], rc0[0], now));
                assert(closed@.map_values(|k: String| k@) =~= cbefore.map_values(|k: String| k@)
                    + reaped_one(r0[0], rc0[0], now));
            }
            proof {
                assert(after_tick(r0, rc0, now) == tick_one(r0[0], rc0[0], now) + after_tick(
                    r0.drop_first(),
                    rc0.drop_first(),
                    now,
                ));
                assert(self@ + after_tick(rest@, receivers@.skip(i + 1), now) =~= before
                    + after_tick(r0, rc0, now));
                if keep {
                    assert(closed@ == cbefore);
                    assert(reaped_one(r0[0], rc0[0], now) =~= seq![]);
                }
                assert(closed@.map_values(|k: String| k@) + reaped_ids(
                    rest@,
                    receivers@.skip(i + 1),
                    now,
                ) =~= cbefore.map_values(|k: String| k@) + reaped_ids(r0, rc0, now));
            }
            i += 1;
        }
        proof {
            assert(after_tick(rest@, receivers@.skip(i as int), now) =~= seq![]);
            assert(self@ + seq![] =~= self@);
            assert(closed@.map_values(|k: String| k@) + seq![] =~= closed@.map_values(
                |k: String| k@,
            ));
            lemma_after_tick_sub(s0, receivers@, now);
        }
        closed
    }
}

/// The table without the session with id `id`.
pub open spec fn without_id(s: Seq<SessionEntry>, id: Seq<char>) -> Seq<SessionEntry> {
    if id_index(s, id) < s.len() {
        s.remove(id_index(s, id))
    } else {
        s
    }
}

/// The table without the session with client key `key`, where one is given.
pub open spec fn without_key(s: Seq<SessionEntry>, key: Option<String>) -> Seq<SessionEntry> {
    match key {
        Some(k) => if key_index(s, k@) < s.len() {
            s.remove(key_index(s, k@))
        } else {
            s
        },
        None => s,
    }
}

proof fn lemma_without_id(s: Seq<SessionEntry>, id: Seq<char>)
    requires
        sessions_wf(s),
    ensures
        sessions_wf(without_id(s, id)),
        forall|j: int| 0 <= j < without_id(s, id).len() ==> (#[trigger] without_id(s, id)[j]).id@
            != id,
{
    lemma_id_from(s, id, 0);
    let i = id_index(s, id);
    if i < s.len() {
        let r = s.remove(i);
        assert forall|j: int| 0 <= j < r.len() implies (#[trigger] r[j]).id@ != id by {
            if j >= i {
                assert(r[j] == s[j + 1]);
            }
        }
        lemma_remove_wf(s, i);
    }
}

proof fn lemma_without_key(s: Seq<SessionEntry>, k: Seq<char>)
    requires
        sessions_wf(s),
    ensures
        sessions_wf(without_key_seq(s, k)),
        forall|j: int| 0 <= j < without_key_seq(s, k).len() ==> !key_is(
            #[trigger] without_key_seq(s, k)[j],
            k,
        ),
        forall|j: int|
            0 <= j < without_key_seq(s, k).len() ==> s.contains(#[trigger] without_key_seq(s, k)[j]),
{
    lemma_key_from(s, k, 0);
    let i = key_index(s, k);
    if i < s.len() {
        let r = s.remove(i);
        assert forall|j: int| 0 <= j < r.len() implies !key_is(#[trigger] r[j], k) by {
            if j >= i {
                assert(r[j] == s[j + 1]);
                assert(s[i].client_key->0@ != s[j + 1].client_key->0@ || !key_is(s[j + 1], k));
            }
        }
        assert forall|j: int| 0 <= j < r.len() implies s.contains(#[trigger] r[j]) by {
            if j >= i {
                assert(r[j] == s[j + 1]);
            } else {
                assert(r[j] == s[j]);
            }
        }
        lemma_remove_wf(s, i);
    } else {
        assert forall|j: int| 0 <= j < s.len() implies s.contains(#[trigger] s[j]) by {}
    }
}

pub open spec fn without_key_seq(s: Seq<SessionEntry>, k: Seq<char>) -> Seq<SessionEntry> {
    if key_index(s, k) < s.len() {
        s.remove(key_index(s, k))
    } else {
        s
    }
}

proof fn lemma_remove_wf(s: Seq<SessionEntry>, i: int)
    requires
        sessions_wf(s),
        0 <= i < s.len(),
    ensures
        sessions_wf(s.remove(i)),
{
    let r = s.remove(i);
    assert forall|a: int, b: int| 0 <= a < b < r.len() implies (#[trigger] r[a]).id@ != (
    #[trigger] r[b]).id@ by {
        let a0 = if a < i { a } else { a + 1 };
        let b0 = if b < i { b } else { b + 1 };
        assert(r[a] == s[a0]);
        assert(r[b] == s[b0]);
    }
    assert forall|a: int, b: int|
        0 <= a < b < r.len() && (#[trigger] r[a]).client_key is Some && (
        #[trigger] r[b]).client_key is Some implies r[a].client_key->0@ != r[b].client_key->0@ by {
        let a0 = if a < i { a } else { a + 1 };
        let b0 = if b < i { b } else { b + 1 };
        assert(r[a] == s[a0]);
        assert(r[b] == s[b0]);
    }
}

/// The entry at `i` with new watch fields keeps the table well formed.
proof fn lemma_update_watch_wf(
    s: Seq<SessionEntry>,
    i: int,
    viewers: usize,
    ever: bool,
    idle: Option<u128>,
)
    requires
        sessions_wf(s),
        0 <= i < s.len(),
    ensures
        sessions_wf(s.update(i, with_watch(s[i], viewers, ever, idle))),
{
    let t = s.update(i, with_watch(s[i], viewers, ever, idle));
    assert forall|a: int, b: int| 0 <= a < b < t.len() implies (#[trigger] t[a]).id@ != (
    #[trigger] t[b]).id@ by {
        assert(t[a].id == s[a].id);
        assert(t[b].id == s[b].id);
    }
    assert forall|a: int, b: int|
        0 <= a < b < t.len() && (#[trigger] t[a]).client_key is Some && (
        #[trigger] t[b]).client_key is Some implies t[a].client_key->0@ != t[b].client_key->0@ by {
        assert(t[a].client_key == s[a].client_key);
        assert(t[b].client_key == s[b].client_key);
    }
}

pub open spec fn spec_attach(s: Seq<SessionEntry>, id: Seq<char>) -> Seq<SessionEntry> {
    let i = id_index(s, id);
    if i < s.len() {
        let v = if s[i].viewers == usize::MAX {
            usize::MAX
        } else {
            (s[i].viewers + 1) as usize
        };
        s.update(i, with_watch(s[i], v, true, None))
    } else {
        s
    }
}

pub open spec fn spec_detach(s: Seq<SessionEntry>, id: Seq<char>, now: u128) -> Seq<SessionEntry> {
    let i = id_index(s, id);
    if i < s.len() {
        let v = if s[i].viewers == 0 {
            0
        } else {
            (s[i].viewers - 1) as usize
        };
        s.update(
            i,
            with_watch(
                s[i],
                v,
                s[i].ever_attached,
                if v == 0 {
                    Some(now)
                } else {
                    s[i].idle_since
                },
            ),
        )
    } else {
        s
    }
}

/// How long the session has been idle at `now` (0 before its stamp).
pub open spec fn idle_for(e: SessionEntry, now: u128) -> int {
    match e.idle_since {
        Some(at) => if now >= at {
            now - at
        } else {
            0
        },
        None => -1,
    }
}

/// Whether the idle timer is due for `e` at `now`.
pub open spec fn tick_due(e: SessionEntry, now: u128) -> bool {
    e.idle_since is Some && idle_for(e, now) >= idle_limit(e.ever_attached)
}

/// Whether a due session is closed: nobody is attached and nothing receives
/// its video.
pub open spec fn tick_reaps(e: SessionEntry, receivers: usize, now: u128) -> bool {
    tick_due(e, now) && e.viewers == 0 && receivers == 0
}

/// What becomes of one session on a tick.
pub open spec fn tick_one(e: SessionEntry, receivers: usize, now: u128) -> Seq<SessionEntry> {
    if tick_reaps(e, receivers, now) {
        seq![]
    } else if tick_due(e, now) {
        seq![with_watch(e, e.viewers, e.ever_attached, None)]
    } else {
        seq![e]
    }
}

pub open spec fn reaped_one(e: SessionEntry, receivers: usize, now: u128) -> Seq<Seq<char>> {
    if tick_reaps(e, receivers, now) {
        seq![e.id@]
    } else {
        seq![]
    }
}

/// The table after a tick at `now`.
pub open spec fn after_tick(s: Seq<SessionEntry>, rc: Seq<usize>, now: u128) -> Seq<SessionEntry>
    decreases s.len(),
{
    if s.len() == 0 {
        seq![]
    } else {
        tick_one(s[0], rc[0], now) + after_tick(s.drop_first(), rc.drop_first(), now)
    }
}

/// The ids of the sessions that a tick at `now` closes, in table order.
pub open spec fn reaped_ids(s: Seq<SessionEntry>, rc: Seq<usize>, now: u128) -> Seq<Seq<char>>
    decreases s.len(),
{
    if s.len() == 0 {
        seq![]
    } else {
        reaped_one(s[0], rc[0], now) + reaped_ids(s.drop_first(), rc.drop_first(), now)
    }
}

/// Every session that a tick keeps was in the table before, with the same
/// id, client key, viewers and history; so a tick keeps the table well formed.
proof fn lemma_after_tick_sub(s: Seq<SessionEntry>, rc: Seq<usize>, now: u128)
    requires
        sessions_wf(s),
        rc.len() == s.len(),
    ensures
        sessions_wf(after_tick(s, rc, now)),
        forall|j: int|
            0 <= j < after_tick(s, rc, now).len() ==> exists|k: int|
                0 <= k < s.len() && (#[trigger] after_tick(s, rc, now)[j]).id == s[k].id
                    && after_tick(s, rc, now)[j].client_key == s[k].client_key,
    decreases s.len(),
{
    if s.len() > 0 {
        let t = s.drop_first();
        assert(sessions_wf(t)) by {
            assert forall|a: int, b: int| 0 <= a < b < t.len() implies (#[trigger] t[a]).id@ != (
            #[trigger] t[b]).id@ by {
                assert(t[a] == s[a + 1]);
                assert(t[b] == s[b + 1]);
            }
            assert forall|a: int, b: int|
                0 <= a < b < t.len() && (#[trigger] t[a]).client_key is Some && (
                #[trigger] t[b]).client_key is Some implies t[a].client_key->0@
                != t[b].client_key->0@ by {
                assert(t[a] == s[a + 1]);
                assert(t[b] == s[b + 1]);
            }
        }
        lemma_after_tick_sub(t, rc.drop_first(), now);
        let rest = after_tick(t, rc.drop_first(), now);
        let head = tick_one(s[0], rc[0], now);
        let all = after_tick(s, rc, now);
        assert(all == head + rest);
        assert forall|j: int| 0 <= j < all.len() implies exists|k: int|
            0 <= k < s.len() && (#[trigger] all[j]).id == s[k].id && all[j].client_key
                == s[k].client_key by {
            if j < head.len() {
                assert(all[j].id == s[0].id && all[j].client_key == s[0].client_key);
            } else {
                assert(all[j] == rest[j - head.len()]);
                let k = choose|k: int|
                    0 <= k < t.len() && (#[trigger] rest[j - head.len()]).id == t[k].id
                        && rest[j - head.len()].client_key == t[k].client_key;
                assert(t[k] == s[k + 1]);
            }
        }
        assert forall|a: int, b: int| 0 <= a < b < all.len() implies (#[trigger] all[a]).id@ != (
        #[trigger] all[b]).id@ && (all[a].client_key is Some && all[b].client_key is Some
            ==> all[a].client_key->0@ != all[b].client_key->0@) by {
            if a < head.len() {
                assert(all[a].id == s[0].id && all[a].client_key == s[0].client_key);
                assert(all[b] == rest[b - head.len()]);
                let k = choose|k: int|
                    0 <= k < t.len() && (#[trigger] rest[b - head.len()]).id == t[k].id
                        && rest[b - head.len()].client_key == t[k].client_key;
                assert(t[k] == s[k + 1]);
            } else {
                assert(all[a] == rest[a - head.len()]);
                assert(all[b] == rest[b - head.len()]);
            }
        }
    }
}

/// The next session id: the counter in lowercase hexadecimal; the counter
/// moves on by one (wrapping, as an atomic counter does).
pub fn next_id(counter: &mut u64) -> (r: String)
    ensures
        r@ == hex_of(*old(counter) as nat),
        *final(counter) == (if *old(counter) == u64::MAX {
            0
        } else {
            (*old(counter) + 1) as u64
        }),
{
    let n = *counter;
    *counter = n.wrapping_add(1);
    format_hex(n)
}

/// The session opened for a resize takes over the viewers and history of the
/// one it replaces; its idle deadline lies one idle limit after `now`.
pub fn adopt_resize_state(entry: SessionEntry, carry: &ResizeCarry, now: u128) -> (r: SessionEntry)
    requires
        now + IDLE_AFTER_LAST_VIEWER_NANOS <= u128::MAX,
    ensures
        r == with_watch(
            entry,
            carry.viewers,
            carry.ever_attached,
            Some((now + idle_limit(carry.ever_attached)) as u128),
        ),
{
    let mut e = entry;
    e.viewers = carry.viewers;
    e.ever_attached = carry.ever_attached;
    let limit = if carry.ever_attached {
        IDLE_AFTER_LAST_VIEWER_NANOS
    } else {
        WAITING_FOR_FIRST_VIEWER_NANOS
    };
    e.idle_since = Some(now + limit);
    e
}

proof fn lemma_id_from_update(s: Seq<SessionEntry>, i: int, e: SessionEntry, id: Seq<char>, k: int)
    requires
        0 <= i < s.len(),
        0 <= k <= s.len(),
        e.id == s[i].id,
    ensures
        id_from(s.update(i, e), id, k) == id_from(s, id, k),
    decreases s.len() - k,
{
    if k < s.len() {
        lemma_id_from_update(s, i, e, id, k + 1);
    }
}

/// Attaching a viewer and detaching it again leaves the session with the
/// viewers it had, marked as watched once, and no other session changes;
/// with no viewer left it is idle from the detach.
pub proof fn law_attach_then_detach(s: Seq<SessionEntry>, id: Seq<char>, now: u128)
    requires
        sessions_wf(s),
        id_index(s, id) < s.len(),
        s[id_index(s, id)].viewers < usize::MAX,
    ensures
        ({
            let i = id_index(s, id);
            let t = spec_detach(spec_attach(s, id), id, now);
            &&& t.len() == s.len()
            &&& t[i].viewers == s[i].viewers
            &&& t[i].ever_attached
            &&& t[i].idle_since == (if s[i].viewers == 0 {
                Some(now)
            } else {
                None
            })
            &&& t[i].id == s[i].id
            &&& forall|j: int| 0 <= j < s.len() && j != i ==> #[trigger] t[j] == s[j]
        }),
{
    let i = id_index(s, id);
    lemma_id_from(s, id, 0);
    let a = spec_attach(s, id);
    let e = with_watch(s[i], (s[i].viewers + 1) as usize, true, None);
    assert(a == s.update(i, e));
    lemma_id_from_update(s, i, e, id, 0);
}

/// A tick never closes a session that somebody watches or that still
/// feeds a video receiver: it stays, with its id, client key and viewers.
pub proof fn law_watched_sessions_survive_a_tick(
    s: Seq<SessionEntry>,
    rc: Seq<usize>,
    now: u128,
    k: int,
)
    requires
        rc.len() == s.len(),
        0 <= k < s.len(),
        s[k].viewers > 0 || rc[k] > 0,
    ensures
        exists|j: int|
            0 <= j < after_tick(s, rc, now).len() && (#[trigger] after_tick(s, rc, now)[j]).id
                == s[k].id && after_tick(s, rc, now)[j].client_key == s[k].client_key
                && after_tick(s, rc, now)[j].viewers == s[k].viewers,
    decreases s.len(),
{
    let head = tick_one(s[0], rc[0], now);
    let rest = after_tick(s.drop_first(), rc.drop_first(), now);
    let all = after_tick(s, rc, now);
    assert(all == head + rest);
    if k == 0 {
        assert(all[0] == head[0]);
    } else {
        assert(s.drop_first()[k - 1] == s[k]);
        assert(rc.drop_first()[k - 1] == rc[k]);
        law_watched_sessions_survive_a_tick(s.drop_first(), rc.drop_first(), now, k - 1);
        let j = choose|j: int|
            0 <= j < rest.len() && (#[trigger] rest[j]).id == s[k].id && rest[j].client_key
                == s[k].client_key && rest[j].viewers == s[k].viewers;
        assert(all[head.len() + j] == rest[j]);
    }
}

/// A request that names an id that is neither a session's id nor a client
/// key is served by no session: it never falls back to another one.
pub proof fn law_unknown_id_is_not_redirected(
    s: Seq<SessionEntry>,
    id: Seq<char>,
    key: Option<Seq<char>>,
)
    requires
        id.len() > 0,
        forall|j: int| 0 <= j < s.len() ==> (#[trigger] s[j]).id@ != id && !key_is(s[j], id),
    ensures
        spec_resolve_id(s, Some(id)) is None,
        spec_resolve_attach(s, Some(id), key) is None,
{
    lemma_id_from(s, id, 0);
    lemma_key_from(s, id, 0);
}

/// The KWin input devices under this object path.
pub open spec fn input_device_prefix() -> Seq<char> {
    "/org/kde/KWin/InputDevice/"@
}

/// The start of a child node whose name begins with `event`.
pub open spec fn event_node_pattern() -> Seq<char> {
    "name=\"event"@
}

/// A node name that is an evdev event device: `event` and digits only.
pub open spec fn is_event_name(name: Seq<char>) -> bool {
    starts_with(name, "event"@) && forall|i: int| 5 <= i < name.len() ==> is_ascii_digit(#[trigger] name[i])
}

/// The input device paths that the introspection XML lists from index `i`
/// on: each `name="event…"` attribute whose value is `event` and digits.
pub open spec fn event_paths_from(s: Seq<char>, i: int) -> Seq<Seq<char>>
    decreases s.len() - i,
{
    if i < 0 || i >= s.len() {
        seq![]
    } else {
        let j = find_from(s, event_node_pattern(), i);
        if j >= s.len() {
            seq![]
        } else {
            let start = j + 6;
            let e = scan(s, start, CharClass::Is('"'));
            proof {
                lemma_find_from(s, event_node_pattern(), i);
                reveal_strlit("name=\"event");
            }
            if start > s.len() || e >= s.len() {
                seq![]
            } else {
                proof {
                    lemma_scan(s, start, CharClass::Is('"'));
                }
                let name = s.subrange(start, e);
                (if is_event_name(name) {
                    seq![input_device_prefix() + name]
                } else {
                    seq![]
                }) + event_paths_from(s, e)
            }
        }
    }
}

pub open spec fn spec_event_paths(xml: Seq<char>) -> Seq<Seq<char>> {
    event_paths_from(xml, 0)
}

fn is_event_name_exec(name: &[char]) -> (r: bool)
    ensures
        r == is_event_name(name@),
{
    if !chars_starts_with_str(name, "event") {
        return false;
    }
    proof {
        reveal_strlit("event");
    }
    let mut i: usize = 5;
    while i < name.len()
        invariant
            5 <= i <= name@.len(),
            forall|k: int| 5 <= k < i ==> is_ascii_digit(#[trigger] name@[k]),
        decreases name@.len() - i,
    {
        if !('0' <= name[i] && name[i] <= '9') {
            return false;
        }
        i += 1;
    }
    true
}

/// The KWin input device paths in the XML that introspecting
/// `/org/kde/KWin/InputDevice` returns.
pub fn event_paths_from_introspect(xml: &str) -> (r: Vec<String>)
    ensures
        r@.map_values(|p: String| p@) == spec_event_paths(xml@),
{
    let s = chars_of(xml);
    let pat = chars_of("name=\"event");
    proof {
        reveal_strlit("name=\"event");
    }
    let mut out: Vec<String> = Vec::new();
    let mut i: usize = 0;
    while i < s.len()
        invariant
            i <= s@.len(),
            s@ == xml@,
            pat@ == event_node_pattern(),
            pat@.len() == 11,
            out@.map_values(|p: String| p@) + event_paths_from(s@, i as int) == spec_event_paths(
                xml@,
            ),
        decreases s@.len() - i,
    {
        let j = find_exec(s.as_slice(), pat.as_slice(), i);
        proof {
            lemma_find_from(s@, event_node_pattern(), i as int);
        }
        if j >= s.len() {
            assert(event_paths_from(s@, i as int) =~= seq![]);
            assert(event_paths_from(s@, s@.len() as int) =~= seq![]);
            i = s.len();
        } else {
            let start = j + 6;
            let e = scan_exec(s.as_slice(), start, &CharClass::Is('"'));
            proof {
                lemma_scan(s@, start as int, CharClass::Is('"'));
            }
            if e >= s.len() {
                assert(event_paths_from(s@, i as int) =~= seq![]);
                assert(event_paths_from(s@, s@.len() as int) =~= seq![]);
                i = s.len();
            } else {
                let name = sub_chars(s.as_slice(), start, e);
                let ghost before = out@.map_values(|p: String| p@);
                if is_event_name_exec(name.as_slice()) {
                    let mut path = string_from("/org/kde/KWin/InputDevice/");
                    let ns = string_of(name.as_slice());
                    path.append(ns.as_str());
                    out.push(path);
                    assert(out@.map_values(|p: String| p@) =~= before + seq![
                        input_device_prefix() + name@,
                    ]);
                } else {
                    assert(out@.map_values(|p: String| p@) =~= before + seq![]);
                }
                i = e;
            }
        }
    }
    proof {
        assert(event_paths_from(s@, i as int) =~= seq![]);
        assert(out@.map_values(|p: String| p@) + seq![] =~= out@.map_values(|p: String| p@));
    }
    out
}

/// A client display's size brought within the bounds a virtual output
/// can have (320x240 to 7680x4320).
pub fn clamp_session_size(width: u32, height: u32) -> (r: (u32, u32))
    ensures
        r.0 == clamp(width as int, 320, 7680),
        r.1 == clamp(height as int, 240, 4320),
{
    let w = if width < 320 {
        320
    } else if width > 7680 {
        7680
    } else {
        width
    };
    let h = if height < 240 {
        240
    } else if height > 4320 {
        4320
    } else {
        height
    };
    (w, h)
}

/// A session's bitrate: the client's, else a configured bitrate other than
/// the stock 8000 kbps, else the one suggested for its mode.
pub fn session_bitrate(requested: Option<u32>, configured: u32, suggested: u32) -> (r: u32)
    ensures
        r == (match requested {
            Some(b) => b,
            None => if configured > 0 && configured != 8000 {
                configured
            } else {
                suggested
            },
        }),
{
    match requested {
        Some(b) => b,
        None => if configured > 0 && configured != 8000 {
            configured
        } else {
            suggested
        },
    }
}

/// The `kscreen-doctor` arguments that enable a new output at scale 1 and
/// place it at `x`.
pub open spec fn spec_enable_args(name: Seq<char>, x: u32) -> Seq<Seq<char>> {
    seq![
        "output."@ + name + ".enable"@,
        "output."@ + name + ".scale.1"@,
        "output."@ + name + ".position."@ + decimal_of(x as nat) + ",0"@,
    ]
}

pub fn enable_output_args(name: &str, x: u32) -> (r: Vec<String>)
    ensures
        r@.map_values(|a: String| a@) == spec_enable_args(name@, x),
{
    let mut en = string_from("output.");
    en.append(name);
    en.append(".enable");
    let mut sc = string_from("output.");
    sc.append(name);
    sc.append(".scale.1");
    let mut pos = string_from("output.");
    pos.append(name);
    pos.append(".position.");
    push_decimal(&mut pos, x as u64);
    pos.append(",0");
    let mut v: Vec<String> = Vec::new();
    v.push(en);
    v.push(sc);
    v.push(pos);
    assert(v@.map_values(|a: String| a@) =~= spec_enable_args(name@, x));
    v
}

/// The pacing of a client display's capture: frames go to the encoder at
/// most once per frame interval, each stamped at least a microsecond after
/// the one before.
#[derive(Debug, Clone, Copy)]
pub struct FramePacer {
    interval_ns: u64,
    next_target_ns: u64,
    last_pts_ns: u64,
}

impl View for FramePacer {
    type V = (u64, u64, u64);

    closed spec fn view(&self) -> (u64, u64, u64) {
        (self.interval_ns, self.next_target_ns, self.last_pts_ns)
    }
}

pub open spec fn sat_add(a: u64, b: u64) -> u64 {
    if a + b <= u64::MAX {
        (a + b) as u64
    } else {
        u64::MAX
    }
}

/// After a frame pushed at `now_ns`: its stamp, the pacer's next state,
/// and how long to sleep before the next read (only waits above a
/// millisecond are slept).
pub open spec fn spec_pace(st: (u64, u64, u64), now_ns: u64) -> (u64, (u64, u64, u64), Option<u64>) {
    let pts = if now_ns >= sat_add(st.2, 1000) {
        now_ns
    } else {
        sat_add(st.2, 1000)
    };
    let target = (st.1 + st.0) as u64;
    let sleep = if target > now_ns && target - now_ns > 1_000_000 {
        Some((target - now_ns) as u64)
    } else {
        None
    };
    (pts, (st.0, target, pts), sleep)
}

impl FramePacer {
    /// A pacer for `refresh_hz` frames a second (0 counts as 1), starting
    /// at `start_ns`.
    pub fn new(refresh_hz: u32, start_ns: u64) -> (r: Self)
        ensures
            r@ == (
                (1_000_000_000int / (if refresh_hz == 0 {
                    1
                } else {
                    refresh_hz as int
                })) as u64,
                start_ns,
                0u64,
            ),
    {
        let rate: u64 = if refresh_hz == 0 {
            1
        } else {
            refresh_hz as u64
        };
        FramePacer { interval_ns: 1_000_000_000 / rate, next_target_ns: start_ns, last_pts_ns: 0 }
    }

    /// Whether the next frame's target time, one interval on, still fits in
    /// 64-bit nanoseconds.
    pub fn next_target_fits(&self) -> (r: bool)
        ensures
            r == (self@.1 + self@.0 <= u64::MAX),
    {
        self.next_target_ns <= u64::MAX - self.interval_ns
    }

    /// Books a frame pushed `now_ns` after the start.
    pub fn frame_pushed(&mut self, now_ns: u64) -> (r: (u64, Option<u64>))
        requires
            old(self)@.1 + old(self)@.0 <= u64::MAX,
        ensures
            ({
                let (pts, next, sleep) = spec_pace(old(self)@, now_ns);
                &&& r == (pts, sleep)
                &&& final(self)@ == next
            }),
    {
        let step = self.last_pts_ns.saturating_add(1000);
        let pts = if now_ns >= step {
            now_ns
        } else {
            step
        };
        self.last_pts_ns = pts;
        self.next_target_ns = self.next_target_ns + self.interval_ns;
        let sleep = if self.next_target_ns > now_ns && self.next_target_ns - now_ns > 1_000_000 {
            Some(self.next_target_ns - now_ns)
        } else {
            None
        };
        (pts, sleep)
    }
}

/// The KWin input device object for `event{n}`.
pub open spec fn event_path(n: nat) -> Seq<char> {
    "/org/kde/KWin/InputDevice/event"@ + decimal_of(n)
}

/// The input devices to bind: those that KWin's introspection listed, or,
/// where it listed none, every `event0` to `event512`.
pub open spec fn spec_kwin_input_paths(found: Seq<Seq<char>>) -> Seq<Seq<char>> {
    if found.len() > 0 {
        found
    } else {
        Seq::new(513, |i: int| event_path(i as nat))
    }
}

pub fn kwin_input_paths(found: Vec<String>) -> (r: Vec<String>)
    ensures
        r@.map_values(|p: String| p@) == spec_kwin_input_paths(found@.map_values(|p: String| p@)),
{
    if found.len() > 0 {
        return found;
    }
    let mut out: Vec<String> = Vec::new();
    let mut i: u64 = 0;
    while i <= 512
        invariant
            i <= 513,
            out@.map_values(|p: String| p@) == Seq::new(i as nat, |k: int| event_path(k as nat)),
        decreases 513 - i,
    {
        let mut p = string_from("/org/kde/KWin/InputDevice/event");
        push_decimal(&mut p, i);
        let ghost before = out@.map_values(|p: String| p@);
        let ghost pv = p@;
        assert(pv == event_path(i as nat));
        out.push(p);
        assert(out@.map_values(|p: String| p@) =~= before.push(pv));
        assert(before.push(pv) =~= Seq::new((i + 1) as nat, |k: int| event_path(k as nat)));
        i += 1;
    }
    proof {
        assert(found@.map_values(|p: String| p@) =~= Seq::<Seq<char>>::empty());
    }
    out
}

/// A frame's stamp is its push time, pushed on to a microsecond after the
/// stamp before where that is later (and held at the largest time there is):
/// it is the larger of the two. The next target is one interval on, and the
/// pacer sleeps until it only where that is over a millisecond away.
pub proof fn law_pacer_stamps_push_time(st: (u64, u64, u64), now_ns: u64)
    requires
        st.1 + st.0 <= u64::MAX,
    ensures
        ({
            let (pts, next, sleep) = spec_pace(st, now_ns);
            let floor: int = if st.2 + 1000 <= u64::MAX {
                st.2 + 1000
            } else {
                u64::MAX as int
            };
            &&& pts >= now_ns
            &&& pts >= floor
            &&& (pts == now_ns || pts == floor)
            &&& now_ns >= floor ==> pts == now_ns
            &&& next == (st.0, (st.1 + st.0) as u64, pts)
            &&& (sleep matches Some(d) ==> d == next.1 - now_ns && d > 1_000_000)
            &&& (sleep is None ==> next.1 <= now_ns + 1_000_000)
        }),
{
}

/// Two frames pushed one after the other get stamps at least a microsecond
/// apart, and the second is its own push time when that comes a microsecond
/// or more after the first stamp.
pub proof fn law_pacer_stamps_increase(st: (u64, u64, u64), t1: u64, t2: u64)
    requires
        st.1 + 2 * st.0 <= u64::MAX,
    ensures
        ({
            let (p1, s1, _) = spec_pace(st, t1);
            let (p2, _, _) = spec_pace(s1, t2);
            &&& p1 + 1000 <= u64::MAX ==> p2 >= p1 + 1000
            &&& t2 >= p1 + 1000 ==> p2 == t2
            &&& p2 >= t2
        }),
{
}

} // verus!
