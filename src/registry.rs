use vstd::prelude::*;
use crate::text::text_eq;

verus! {

/// A run on a domain that is already being backed up was refused.
#[derive(Clone, Copy, Debug, PartialEq, Eq, Structural)]
pub struct AlreadyInProgress;

/// The registry after an attempt to take the lock on `name`, and whether it
/// was taken.
pub open spec fn acquire(held: Seq<Seq<char>>, name: Seq<char>) -> (Seq<Seq<char>>, bool) {
    if held.contains(name) {
        (held, false)
    } else {
        (held.push(name), true)
    }
}

/// The names of the domains whose backup runs are under way: at most one run
/// per domain name.
pub struct RunRegistry {
    active: Vec<String>,
}

impl RunRegistry {
    pub closed spec fn held(&self) -> Seq<Seq<char>> {
        self.active@.map_values(|s: String| s@)
    }

    /// No domain is held twice.
    pub open spec fn wf(&self) -> bool {
        self.held().no_duplicates()
    }

    /// A registry in which no run is under way.
    pub fn new() -> (r: Self)
        ensures
            r.wf(),
            r.held() == Seq::<Seq<char>>::empty(),
    {
        let r = RunRegistry { active: Vec::new() };
        assert(r.held() =~= Seq::<Seq<char>>::empty());
        r
    }

    fn position(&self, name: &str) -> (r: Option<usize>)
        ensures
            match r {
                Some(i) => i < self.held().len() && self.held()[i as int] == name@,
                None => !self.held().contains(name@),
            },
    {
        let mut i: usize = 0;
        while i < self.active.len()
            invariant
                i <= self.active.len(),
                forall|j: int| 0 <= j < i ==> self.held()[j] != name@,
            decreases self.active.len() - i,
        {
            if text_eq(self.active[i].as_str(), name) {
                return Some(i);
            }
            i = i + 1;
        }
        None
    }

    /// Whether a run on `name` is under way.
    pub fn is_active(&self, name: &str) -> (r: bool)
        ensures
            r == self.held().contains(name@),
    {
        self.position(name).is_some()
    }

    /// Takes the lock on `name`, or refuses at once with `AlreadyInProgress`,
    /// leaving the registry as it was, where a run on `name` is under way.
    pub fn try_acquire(&mut self, name: String) -> (r: Result<(), AlreadyInProgress>)
        requires
            old(self).wf(),
        ensures
            final(self).wf(),
            (final(self).held(), r is Ok) == acquire(old(self).held(), name@),
    {
        if self.is_active(name.as_str()) {
            Err(AlreadyInProgress)
        } else {
            let ghost before = self.held();
            self.active.push(name);
            assert(self.held() =~= before.push(name@));
            Ok(())
        }
    }

    /// Gives up the lock on `name`; the other locks stay.
    pub fn release(&mut self, name: &str)
        requires
            old(self).wf(),
        ensures
            final(self).wf(),
            forall|n: Seq<char>| final(self).held().contains(n) <==> (old(self).held().contains(n) && n != name@),
    {
        match self.position(name) {
            Some(i) => {
                let ghost before = self.held();
                self.active.remove(i);
                assert(self.held() =~= before.remove(i as int));
                assert forall|n: Seq<char>| self.held().contains(n) <==> (before.contains(n) && n != name@) by {
                    if before.contains(n) && n != name@ {
                        let k = choose|k: int| 0 <= k < before.len() && before[k] == n;
                        if k < i {
                            assert(self.held()[k] == n);
                        } else {
                            assert(self.held()[k - 1] == n);
                        }
                    }
                    if self.held().contains(n) {
                        let k = choose|k: int| 0 <= k < self.held().len() && self.held()[k] == n;
                        if k < i {
                            assert(before[k] == n);
                        } else {
                            assert(before[k + 1] == n);
                        }
                    }
                }
            },
            None => {},
        }
    }
}

/// A second attempt on a domain whose run is under way is refused and leaves
/// the registry unchanged.
pub proof fn lemma_second_attempt_refused(held: Seq<Seq<char>>, name: Seq<char>)
    ensures
        acquire(acquire(held, name).0, name) == (acquire(held, name).0, false),
{
    if !held.contains(name) {
        assert(held.push(name)[held.len() as int] == name);
    }
}

} // verus!
