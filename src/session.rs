//! Session tokens and the session lifecycle.
use vstd::prelude::*;
use crate::entity::{Session, SessionView};

verus! {

/// The number of characters in a session token.
pub const TOKEN_LEN: usize = 30;

/// The characters a session token is drawn from.
pub open spec fn alphabet() -> Seq<char> {
    "ABCDEFGHIJKLMNOPQRSTUVWXYZabcdefghijklmnopqrstuvwxyz0123456789"@
}

fn alphabet_str() -> (r: &'static str)
    ensures
        r@ == alphabet(),
        r@.len() == 62,
{
    proof {
        reveal_strlit("ABCDEFGHIJKLMNOPQRSTUVWXYZabcdefghijklmnopqrstuvwxyz0123456789");
    }
    "ABCDEFGHIJKLMNOPQRSTUVWXYZabcdefghijklmnopqrstuvwxyz0123456789"
}

/// A well-formed session token: `TOKEN_LEN` characters of the alphabet.
pub open spec fn is_token(t: Seq<char>) -> bool {
    &&& t.len() == TOKEN_LEN
    &&& forall|i: int| 0 <= i < t.len() ==> alphabet().contains(#[trigger] t[i])
}

/// The token spelled by a sequence of alphabet positions.
pub open spec fn token_of(idx: Seq<usize>) -> Seq<char> {
    idx.map_values(|x: usize| alphabet()[x as int])
}

/// Relies on `rand::thread_rng` and `Rng::gen_range`: a number drawn from
/// `0..n` by the thread's cryptographically secure generator (it panics on
/// an empty range).
#[verifier::external_body]
fn random_below(n: usize) -> (r: usize)
    requires
        n > 0,
    ensures
        r < n,
{
    rand::Rng::gen_range(&mut rand::thread_rng(), 0..n)
}

/// Relies on `chrono::Utc::now` and `DateTime::timestamp_millis`: the wall
/// clock in milliseconds since the Unix epoch.
#[verifier::external_body]
pub(crate) fn now_millis() -> (r: i64) {
    chrono::Utc::now().timestamp_millis()
}

/// Spells a token from positions in the alphabet.
pub fn token_from_indices(idx: &Vec<usize>) -> (r: String)
    requires
        forall|i: int| 0 <= i < idx@.len() ==> #[trigger] idx@[i] < 62,
    ensures
        r@ == token_of(idx@),
{
    let chars = alphabet_str();
    let mut r = String::new();
    let mut i: usize = 0;
    while i < idx.len()
        invariant
            i <= idx@.len(),
            chars@ == alphabet(),
            chars@.len() == 62,
            forall|j: int| 0 <= j < idx@.len() ==> #[trigger] idx@[j] < 62,
            r@ == token_of(idx@.subrange(0, i as int)),
        decreases idx.len() - i,
    {
        let x = idx[i];
        let c = chars.substring_char(x, x + 1);
        r.append(c);
        proof {
            assert(c@ =~= seq![alphabet()[x as int]]);
            assert(token_of(idx@.subrange(0, i + 1)) =~= token_of(idx@.subrange(0, i as int)) + seq![alphabet()[x as int]]);
        }
        i = i + 1;
    }
    assert(idx@.subrange(0, idx@.len() as int) =~= idx@);
    r
}

/// Draws a fresh session token.
pub fn generate_session_id() -> (r: String)
    ensures
        is_token(r@),
{
    let mut idx: Vec<usize> = Vec::new();
    let mut i: usize = 0;
    while i < TOKEN_LEN
        invariant
            i <= TOKEN_LEN,
            idx@.len() == i,
            forall|j: int| 0 <= j < idx@.len() ==> #[trigger] idx@[j] < 62,
        decreases TOKEN_LEN - i,
    {
        idx.push(random_below(62));
        i = i + 1;
    }
    let r = token_from_indices(&idx);
    assert forall|j: int| 0 <= j < r@.len() implies alphabet().contains(#[trigger] r@[j]) by {
        reveal_strlit("ABCDEFGHIJKLMNOPQRSTUVWXYZabcdefghijklmnopqrstuvwxyz0123456789");
        let k = idx@[j] as int;
        assert(0 <= k < alphabet().len());
        assert(r@[j] == alphabet()[k]);
    }
    r
}

/// A session after a refresh at `now`: `refreshed` moves forward to `now`,
/// and never back.
pub open spec fn refreshed_at(s: SessionView, now: i64) -> SessionView {
    SessionView { refreshed: if now > s.refreshed { now } else { s.refreshed }, ..s }
}

/// A session after refreshes at each of `times`, in order.
pub open spec fn refreshed_through(s: SessionView, times: Seq<i64>) -> SessionView
    decreases times.len(),
{
    if times.len() == 0 {
        s
    } else {
        refreshed_through(refreshed_at(s, times[0]), times.drop_first())
    }
}

/// A session's timestamps are in order.
pub open spec fn timestamps_ordered(s: SessionView) -> bool {
    s.started <= s.refreshed
}

/// Refreshing never moves `refreshed` back and never touches `started`, over
/// any sequence of refreshes; so the timestamps stay in order.
pub proof fn lemma_refresh_monotonic(s: SessionView, times: Seq<i64>)
    ensures
        refreshed_through(s, times).started == s.started,
        refreshed_through(s, times).refreshed >= s.refreshed,
        timestamps_ordered(s) ==> timestamps_ordered(refreshed_through(s, times)),
        times.len() > 0 ==> refreshed_through(s, times).refreshed
            >= refreshed_through(s, times.drop_last()).refreshed,
    decreases times.len(),
{
    if times.len() > 0 {
        let s1 = refreshed_at(s, times[0]);
        lemma_refresh_monotonic(s1, times.drop_first());
        if times.len() > 1 {
            assert(times.drop_first().drop_last() =~= times.drop_last().drop_first());
        } else {
            assert(times.drop_last() =~= Seq::<i64>::empty());
            assert(times.drop_first() =~= Seq::<i64>::empty());
        }
    }
}

impl Session {
    /// A new session of user `user` with token `id`, started and refreshed at `now`.
    pub fn create(user: i64, id: String, now: i64) -> (r: Session)
        ensures
            r@ == (SessionView { node_id: None, id: id@, user, started: now, refreshed: now }),
    {
        Session { node_id: None, id, user, started: now, refreshed: now }
    }

    /// A new session of user `user`, with a fresh token, started now.
    pub fn new(user: i64) -> (r: Session)
        ensures
            r.node_id is None,
            r.user == user,
            is_token(r.id@),
            r.started == r.refreshed,
    {
        let id = generate_session_id();
        Session::create(user, id, now_millis())
    }

    /// Records activity at `now`.
    pub fn refresh_at(&mut self, now: i64)
        ensures
            final(self)@ == refreshed_at(old(self)@, now),
    {
        if now > self.refreshed {
            self.refreshed = now;
        }
    }

    /// Records activity at the present time.
    pub fn refresh(&mut self)
        ensures
            final(self).node_id == old(self).node_id,
            final(self).id@ == old(self).id@,
            final(self).user == old(self).user,
            final(self).started == old(self).started,
            final(self).refreshed >= old(self).refreshed,
    {
        let now = now_millis();
        self.refresh_at(now);
    }
}

} // verus!
