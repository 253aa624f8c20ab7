use vstd::prelude::*;

verus! {

/// A value built on first use by an initializer fixed at construction.
///
/// The initializer runs at most once over the cell's whole life: every
/// access after the first sees the value it built, or what `mutate` later
/// made of it.  Sharing between threads is done by placing the cell
/// behind a lock; the cell itself is owned.
#[verifier::reject_recursive_types(T)]
pub struct Singleton<T, F: Fn() -> T> {
    value: Option<T>,
    f: F,
    runs: Ghost<nat>,
}

impl<T, F: Fn() -> T> Singleton<T, F> {
    /// The cell's invariant: the initializer has run once exactly when a
    /// value is held, and never otherwise.
    pub closed spec fn wf(&self) -> bool {
        self.runs@ == (if self.value.is_some() { 1nat } else { 0nat })
    }

    /// Whether the initializer has run.
    pub closed spec fn is_initialized(&self) -> bool {
        self.value.is_some()
    }

    /// How many times the initializer has run.
    pub closed spec fn init_runs(&self) -> nat {
        self.runs@
    }

    /// The held value; meaningful once initialised.
    pub closed spec fn current(&self) -> T {
        self.value.unwrap()
    }

    /// The initializer registered at construction.
    pub closed spec fn initializer(&self) -> F {
        self.f
    }

    /// Makes a cell without running `f`.
    pub fn new(f: F) -> (r: Self)
        ensures
            r.wf(),
            !r.is_initialized(),
            r.init_runs() == 0,
            r.initializer() == f,
    {
        Singleton { value: None, f, runs: Ghost(0) }
    }

    fn init(&mut self)
        requires
            old(self).wf(),
            call_requires(old(self).initializer(), ()),
        ensures
            final(self).wf(),
            final(self).is_initialized(),
            final(self).init_runs() == 1,
            final(self).initializer() == old(self).initializer(),
            old(self).is_initialized() ==> final(self).current() == old(self).current(),
            !old(self).is_initialized() ==> call_ensures(
                old(self).initializer(),
                (),
                final(self).current(),
            ),
    {
        if self.value.is_none() {
            let v = (self.f)();
            self.value = Some(v);
            self.runs = Ghost(self.runs@ + 1);
        }
    }

    /// Applies `update` to the value, initialising it first if needed.
    pub fn mutate<U: FnOnce(T) -> T>(&mut self, update: U)
        requires
            old(self).wf(),
            call_requires(old(self).initializer(), ()),
            forall|v: T| call_requires(update, (v,)),
        ensures
            final(self).wf(),
            final(self).is_initialized(),
            final(self).init_runs() == 1,
            final(self).initializer() == old(self).initializer(),
            old(self).is_initialized() ==> call_ensures(
                update,
                (old(self).current(),),
                final(self).current(),
            ),
            !old(self).is_initialized() ==> exists|v: T|
                call_ensures(old(self).initializer(), (), v) && call_ensures(
                    update,
                    (v,),
                    final(self).current(),
                ),
    {
        self.init();
        let ghost before = self.value.unwrap();
        let v = self.value.take().unwrap();
        let r = update(v);
        assert(call_ensures(update, (before,), r));
        self.value = Some(r);
    }

    /// The value, initialising it first if needed.
    pub fn get(&mut self) -> (r: &T)
        requires
            old(self).wf(),
            call_requires(old(self).initializer(), ()),
        ensures
            final(self).wf(),
            final(self).is_initialized(),
            final(self).init_runs() == 1,
            final(self).initializer() == old(self).initializer(),
            *r == final(self).current(),
            old(self).is_initialized() ==> final(self).current() == old(self).current(),
            !old(self).is_initialized() ==> call_ensures(
                old(self).initializer(),
                (),
                final(self).current(),
            ),
    {
        self.init();
        self.value.as_ref().unwrap()
    }
}

/// However many accesses a well-formed cell has served, its initializer
/// has run at most once, and exactly once after the first access.
pub proof fn lemma_initializer_runs_at_most_once<T, F: Fn() -> T>(s: Singleton<T, F>)
    requires
        s.wf(),
    ensures
        s.init_runs() <= 1,
        s.is_initialized() <==> s.init_runs() == 1,
{
}

} // verus!
