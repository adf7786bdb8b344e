//! The per-run session cache: at most one authenticated session per host alias.
use vstd::prelude::*;
use vstd::string::*;

verus! {

/// An established SSH connection, opaque to the library.
#[verifier::external_type_specification]
#[verifier::external_body]
pub struct ExSession(ssh2::Session);

/// Sessions keyed by host alias, in the order they were established, and
/// the script names issued during this run.
pub struct SessionManager {
    sessions: Vec<(String, ssh2::Session)>,
    issued: Vec<String>,
}

impl View for SessionManager {
    type V = Seq<Seq<char>>;

    /// The host aliases that hold a session, in the order of establishment.
    closed spec fn view(&self) -> Seq<Seq<char>> {
        self.sessions@.map_values(|p: (String, ssh2::Session)| p.0@)
    }
}

/// Whether two strings hold the same characters.
fn str_eq(a: &str, b: &str) -> (r: bool)
    ensures
        r == (a@ == b@),
{
    let n = a.unicode_len();
    if n != b.unicode_len() {
        return false;
    }
    let mut i: usize = 0;
    while i < n
        invariant
            n == a@.len(),
            n == b@.len(),
            i <= n,
            forall|j: int| 0 <= j < i ==> a@[j] == b@[j],
        decreases n - i,
    {
        if a.get_char(i) != b.get_char(i) {
            return false;
        }
        i = i + 1;
    }
    assert(a@ =~= b@);
    true
}

impl SessionManager {
    /// The script names issued so far, in order.
    pub closed spec fn issued_names(&self) -> Seq<Seq<char>> {
        self.issued@.map_values(|s: String| s@)
    }

    /// The position of `alias` among the cached aliases.
    closed spec fn index_of(&self, alias: Seq<char>) -> int {
        choose|i: int| 0 <= i < self@.len() && self@[i] == alias
    }

    /// The session cached for `alias`; meaningful when `alias` is cached.
    pub closed spec fn session_of(&self, alias: Seq<char>) -> ssh2::Session {
        self.sessions@[self.index_of(alias)].1
    }

    /// In a well-formed cache, the entry at `i` holds the session of its alias.
    proof fn lemma_session_at(&self, i: int)
        requires
            self.wf(),
            0 <= i < self@.len(),
        ensures
            self.session_of(self@[i]) == self.sessions@[i].1,
    {
        let a = self@[i];
        let j = self.index_of(a);
        assert(0 <= j < self@.len() && self@[j] == a);
        assert(i == j);
    }

    /// One session per alias and pairwise distinct script names.
    pub open spec fn wf(&self) -> bool {
        self@.no_duplicates() && self.issued_names().no_duplicates()
    }

    /// An empty cache.
    pub fn new() -> (r: Self)
        ensures
            r.wf(),
            r@ == Seq::<Seq<char>>::empty(),
            r.issued_names() == Seq::<Seq<char>>::empty(),
    {
        let r = SessionManager { sessions: Vec::new(), issued: Vec::new() };
        assert(r@ =~= Seq::<Seq<char>>::empty());
        assert(r.issued_names() =~= Seq::<Seq<char>>::empty());
        r
    }

    /// The index of the session cached for `alias`, if any.
    fn find(&self, alias: &str) -> (r: Option<usize>)
        ensures
            r.is_some() == self@.contains(alias@),
            r.is_some() ==> r.unwrap() < self.sessions.len() && self@[r.unwrap() as int] == alias@,
    {
        let mut i: usize = 0;
        while i < self.sessions.len()
            invariant
                i <= self.sessions.len(),
                forall|j: int| 0 <= j < i ==> self.sessions@[j].0@ != alias@,
            decreases self.sessions.len() - i,
        {
            if str_eq(self.sessions[i].0.as_str(), alias) {
                assert(self@[i as int] == self.sessions@[i as int].0@);
                return Some(i);
            }
            i = i + 1;
        }
        assert forall|j: int| 0 <= j < self@.len() implies self@[j] != alias@ by {
            assert(self@[j] == self.sessions@[j].0@);
        }
        None
    }

    /// Whether a session for `alias` is cached.
    pub fn contains(&self, alias: &str) -> (r: bool)
        ensures
            r == self@.contains(alias@),
    {
        self.find(alias).is_some()
    }

    /// The cached session for `alias`, if any; never checked for liveness.
    pub fn get_session(&self, alias: &str) -> (r: Option<&ssh2::Session>)
        requires
            self.wf(),
        ensures
            r.is_some() == self@.contains(alias@),
            r.is_some() ==> *r.unwrap() == self.session_of(alias@),
    {
        match self.find(alias) {
            Some(i) => {
                proof {
                    self.lemma_session_at(i as int);
                }
                Some(&self.sessions[i].1)
            },
            None => None,
        }
    }

    /// Caches `session` for an alias that has none yet.
    pub fn insert(&mut self, alias: String, session: ssh2::Session)
        requires
            old(self).wf(),
            !old(self)@.contains(alias@),
        ensures
            final(self).wf(),
            final(self)@ == old(self)@.push(alias@),
            final(self).issued_names() == old(self).issued_names(),
            final(self).session_of(alias@) == session,
            forall|a: Seq<char>|
                old(self)@.contains(a) ==> #[trigger] final(self).session_of(a) == old(
                    self,
                ).session_of(a),
    {
        let ghost a = alias@;
        let ghost s = session;
        self.sessions.push((alias, session));
        assert(self@ =~= old(self)@.push(a));
        assert(self.issued_names() =~= old(self).issued_names());
        proof {
            assert forall|i: int, j: int| 0 <= i < j < self@.len() implies self@[i] != self@[j] by {
                assert(self@[i] == old(self)@[i]);
                if j < self@.len() - 1 {
                    assert(self@[j] == old(self)@[j]);
                }
            }
            let n = old(self)@.len() as int;
            assert(self@[n] == a);
            self.lemma_session_at(n);
            assert forall|b: Seq<char>| old(self)@.contains(b) implies #[trigger] self.session_of(b)
                == old(self).session_of(b) by {
                let k = choose|k: int| 0 <= k < old(self)@.len() && old(self)@[k] == b;
                old(self).lemma_session_at(k);
                assert(self@[k] == old(self)@[k]);
                self.lemma_session_at(k);
            }
        }
    }

    /// Whether `name` was issued during this run.
    fn was_issued(&self, name: &String) -> (r: bool)
        ensures
            r == self.issued_names().contains(name@),
    {
        let mut i: usize = 0;
        while i < self.issued.len()
            invariant
                i <= self.issued.len(),
                forall|j: int| 0 <= j < i ==> self.issued@[j]@ != name@,
            decreases self.issued.len() - i,
        {
            if self.issued[i] == *name {
                assert(self.issued_names()[i as int] == name@);
                return true;
            }
            i = i + 1;
        }
        assert forall|j: int| 0 <= j < self.issued_names().len() implies self.issued_names()[j] != name@ by {
            assert(self.issued_names()[j] == self.issued@[j]@);
        }
        false
    }

    /// Records `name` as issued if it was not issued before; returns whether it was recorded.
    pub fn claim_name(&mut self, name: &String) -> (r: bool)
        requires
            old(self).wf(),
        ensures
            final(self).wf(),
            final(self)@ == old(self)@,
            forall|a: Seq<char>| #[trigger] final(self).session_of(a) == old(self).session_of(a),
            r == !old(self).issued_names().contains(name@),
            r ==> final(self).issued_names() == old(self).issued_names().push(name@),
            !r ==> final(self).issued_names() == old(self).issued_names(),
    {
        if self.was_issued(name) {
            return false;
        }
        let ghost before = self.issued_names();
        self.issued.push(name.clone());
        assert(self.issued_names() =~= before.push(name@));
        assert(self@ =~= old(self)@);
        proof {
            let s = self.issued_names();
            assert forall|i: int, j: int| 0 <= i < j < s.len() implies s[i] != s[j] by {
                assert(before[i] == s[i]);
                if j < s.len() - 1 {
                    assert(before[j] == s[j]);
                }
            }
        }
        true
    }
}

/// The script names issued in one run are pairwise distinct: every cache
/// that the library hands out is well formed, and a name is recorded only
/// when it was not issued before.
pub proof fn lemma_issued_names_distinct(sessions: SessionManager)
    requires
        sessions.wf(),
    ensures
        forall|i: int, j: int|
            0 <= i < j < sessions.issued_names().len() ==> sessions.issued_names()[i]
                != sessions.issued_names()[j],
{
}

/// Sessions are reused: once `session` was established for `alias` into a
/// cache that held none, every later cache that keeps the aliases and the
/// sessions of the earlier one (as running scripts does) holds `alias`
/// exactly once, still with that very session, so no second session is
/// established for it.
pub proof fn lemma_session_reuse(
    before: SessionManager,
    after: SessionManager,
    later: SessionManager,
    alias: Seq<char>,
    session: ssh2::Session,
)
    requires
        before.wf(),
        !before@.contains(alias),
        after@ == before@.push(alias),
        after.session_of(alias) == session,
        later.wf(),
        later@ == after@,
        forall|a: Seq<char>| after@.contains(a) ==> #[trigger] later.session_of(a) == after.session_of(a),
    ensures
        later@.contains(alias),
        later.session_of(alias) == session,
        later@[before@.len() as int] == alias,
        forall|i: int| 0 <= i < later@.len() && later@[i] == alias ==> i == before@.len(),
{
    assert(later@[before@.len() as int] == alias);
    assert(after@.contains(alias));
    assert forall|i: int| 0 <= i < later@.len() && later@[i] == alias implies i
        == before@.len() by {
        if i < before@.len() {
            assert(before@[i] == later@[i]);
        }
    }
}

} // verus!
