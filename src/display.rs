use vstd::prelude::*;

verus! {

/// The five value slots of the overlay, built once on first use and then kept.
pub struct DisplayBinding<H> {
    handles: Option<[H; 5]>,
    builds: Ghost<nat>,
}

impl<H: Copy> DisplayBinding<H> {
    /// The number of times the factory has run equals whether handles are cached.
    pub closed spec fn wf(&self) -> bool {
        self.builds@ == if self.handles.is_some() {
            1nat
        } else {
            0nat
        }
    }

    pub closed spec fn cached(&self) -> Option<[H; 5]> {
        self.handles
    }

    /// How many times a factory has been run on this binding.
    pub closed spec fn builds(&self) -> nat {
        self.builds@
    }

    pub fn new() -> (r: Self)
        ensures
            r.wf(),
            r.cached().is_none(),
            r.builds() == 0,
    {
        DisplayBinding { handles: None, builds: Ghost(0) }
    }

    pub fn is_created(&self) -> (r: bool)
        ensures
            r == self.cached().is_some(),
    {
        self.handles.is_some()
    }

    /// Returns the cached handles; on the first call, runs `factory` to build them.
    pub fn get_or_create<F: FnOnce() -> [H; 5]>(&mut self, factory: F) -> (r: [H; 5])
        requires
            old(self).wf(),
            old(self).cached().is_none() ==> factory.requires(()),
        ensures
            final(self).wf(),
            final(self).cached() == Some(r),
            old(self).cached().is_some() ==> r == old(self).cached().unwrap(),
            old(self).cached().is_some() ==> final(self).builds() == old(self).builds(),
            old(self).cached().is_none() ==> factory.ensures((), r),
            old(self).cached().is_none() ==> final(self).builds() == old(self).builds() + 1,
    {
        match self.handles {
            Some(h) => h,
            None => {
                let h = factory();
                self.handles = Some(h);
                self.builds = Ghost(self.builds@ + 1);
                h
            },
        }
    }

    /// Over the whole life of a binding the factory runs at most once, and once
    /// the handles exist it has run exactly once.
    pub proof fn lemma_built_at_most_once(&self)
        requires
            self.wf(),
        ensures
            self.builds() <= 1,
            self.cached().is_some() <==> self.builds() == 1,
    {
    }
}

} // verus!
