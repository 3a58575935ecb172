//! The window registry: one singleton utility window per declared kind, each
//! with an open/closed flag and a set of menu locations where its toggle
//! control appears. Restoration validates the persisted registry against the
//! declared variant set and rebuilds the default on any mismatch.

use vstd::prelude::*;

verus! {

/// The declared singleton utility windows. The registry always holds exactly
/// one entry per variant, in this declaration order.
#[derive(Clone, Copy, Debug, PartialEq, Eq, Structural)]
pub enum WindowKind {
    /// The tracing log viewer. Its live event feed is a runtime handle owned
    /// by the shell, excluded from persisted and verified state.
    LogViewer,
    /// The about box.
    About,
}

/// The menu placements where a window's toggle control may appear.
#[derive(Clone, Copy, Debug, PartialEq, Eq, Structural)]
pub enum WindowToggleButtonsLocations {
    File,
    Window,
    Help,
}

/// How many window kinds are declared.
pub open spec fn window_kind_count() -> int {
    2
}

/// The kind at each position of the declaration order.
pub open spec fn kind_at(i: int) -> WindowKind {
    if i == 0 {
        WindowKind::LogViewer
    } else {
        WindowKind::About
    }
}

/// Whether a window kind's toggle control appears at a menu location.
pub open spec fn shows_at_spec(k: WindowKind, loc: WindowToggleButtonsLocations) -> bool {
    match k {
        WindowKind::LogViewer => loc == WindowToggleButtonsLocations::Window,
        WindowKind::About => loc == WindowToggleButtonsLocations::Help,
    }
}

/// Whether a window kind's toggle control appears at a menu location.
pub fn shows_at(k: WindowKind, loc: WindowToggleButtonsLocations) -> (r: bool)
    ensures
        r == shows_at_spec(k, loc),
{
    match k {
        WindowKind::LogViewer => matches!(loc, WindowToggleButtonsLocations::Window),
        WindowKind::About => matches!(loc, WindowToggleButtonsLocations::Help),
    }
}

/// The default registry contents: one closed entry per declared kind, in
/// declaration order.
pub open spec fn default_windows_seq() -> Seq<(WindowKind, bool)> {
    Seq::new(window_kind_count() as nat, |i: int| (kind_at(i), false))
}

/// The registry of singleton utility windows: exactly one entry per declared
/// kind, each carrying its open/closed flag.
#[derive(Clone, Debug, PartialEq, Eq)]
pub struct UniqueWindows {
    pub windows: Vec<(WindowKind, bool)>,
}

impl UniqueWindows {
    /// The registry is in its declared shape: one entry per kind, in order.
    pub open spec fn well_formed(self) -> bool {
        &&& self.windows@.len() == window_kind_count()
        &&& forall|i: int|
            0 <= i < self.windows@.len() ==> (#[trigger] self.windows@[i]).0 == kind_at(i)
    }

    /// Restore a registry read back from persisted state. If the entry count
    /// does not match the declared variant count (a kind was added or removed
    /// since the state was saved), the whole registry is discarded and
    /// rebuilt as the default; otherwise it is kept exactly as persisted.
    pub fn restore(self) -> (r: UniqueWindows)
        ensures
            r.windows@ == spec_restore(self.windows@),
            self.windows@.len() != window_kind_count() ==> r.windows@ == default_windows_seq(),
            self.windows@.len() == window_kind_count() ==> r == self,
            self.well_formed() ==> r.well_formed(),
    {
        if self.windows.len() != 2 {
            UniqueWindows::default()
        } else {
            self
        }
    }

    /// Flip the open flag of the entry at `i`; every other entry is kept.
    pub fn toggle_open(&mut self, i: usize)
        requires
            i < old(self).windows@.len(),
        ensures
            final(self).windows@ == old(self).windows@.update(
                i as int,
                (old(self).windows@[i as int].0, !old(self).windows@[i as int].1),
            ),
    {
        let (k, open) = self.windows[i];
        self.windows.set(i, (k, !open));
    }

    /// Set the open flag of the entry at `i`; every other entry is kept.
    /// A window closing itself from within its own render call reaches the
    /// registry through this operation.
    pub fn set_open(&mut self, i: usize, open: bool)
        requires
            i < old(self).windows@.len(),
        ensures
            final(self).windows@ == old(self).windows@.update(
                i as int,
                (old(self).windows@[i as int].0, open),
            ),
    {
        let (k, _) = self.windows[i];
        self.windows.set(i, (k, open));
    }

    /// The indices whose toggle control appears at `loc`, in registry order.
    pub fn indices_at_location(&self, loc: WindowToggleButtonsLocations) -> (r: Vec<usize>)
        ensures
            r@ == indices_at_spec(self.windows@, loc, self.windows@.len() as int),
    {
        let mut r: Vec<usize> = Vec::new();
        let mut j: usize = 0;
        while j < self.windows.len()
            invariant
                j <= self.windows@.len(),
                r@ == indices_at_spec(self.windows@, loc, j as int),
            decreases self.windows@.len() - j,
        {
            let (k, _) = self.windows[j];
            if shows_at(k, loc) {
                r.push(j);
            }
            proof {
                assert(r@ =~= indices_at_spec(self.windows@, loc, j as int + 1));
            }
            j = j + 1;
        }
        r
    }

    /// The indices of the entries whose window is open, in registry order.
    pub fn open_indices(&self) -> (r: Vec<usize>)
        ensures
            r@ == open_indices_spec(self.windows@, self.windows@.len() as int),
    {
        let mut r: Vec<usize> = Vec::new();
        let mut j: usize = 0;
        while j < self.windows.len()
            invariant
                j <= self.windows@.len(),
                r@ == open_indices_spec(self.windows@, j as int),
            decreases self.windows@.len() - j,
        {
            let (_, open) = self.windows[j];
            if open {
                r.push(j);
            }
            proof {
                assert(r@ =~= open_indices_spec(self.windows@, j as int + 1));
            }
            j = j + 1;
        }
        r
    }
}

/// The indices among the first `n` entries whose toggle appears at `loc`.
pub open spec fn indices_at_spec(
    s: Seq<(WindowKind, bool)>,
    loc: WindowToggleButtonsLocations,
    n: int,
) -> Seq<usize>
    decreases n,
{
    if n <= 0 {
        Seq::empty()
    } else if shows_at_spec(s[n - 1].0, loc) {
        indices_at_spec(s, loc, n - 1).push((n - 1) as usize)
    } else {
        indices_at_spec(s, loc, n - 1)
    }
}

/// The indices among the first `n` entries whose window is open.
pub open spec fn open_indices_spec(s: Seq<(WindowKind, bool)>, n: int) -> Seq<usize>
    decreases n,
{
    if n <= 0 {
        Seq::empty()
    } else if s[n - 1].1 {
        open_indices_spec(s, n - 1).push((n - 1) as usize)
    } else {
        open_indices_spec(s, n - 1)
    }
}

impl Default for UniqueWindows {
    /// One closed entry per declared kind, in declaration order.
    fn default() -> (r: Self)
        ensures
            r.windows@ == default_windows_seq(),
            r.well_formed(),
    {
        let mut v: Vec<(WindowKind, bool)> = Vec::new();
        v.push((WindowKind::LogViewer, false));
        v.push((WindowKind::About, false));
        proof {
            assert(v@ =~= default_windows_seq());
        }
        UniqueWindows { windows: v }
    }
}

/// What restoration yields, as a function of the persisted entries alone.
pub open spec fn spec_restore(s: Seq<(WindowKind, bool)>) -> Seq<(WindowKind, bool)> {
    if s.len() != window_kind_count() {
        default_windows_seq()
    } else {
        s
    }
}

/// Law: restoring any persisted registry whose length differs from the
/// declared variant count yields exactly the default registry (one closed
/// entry per kind, in declaration order), and restoring one whose length
/// matches preserves every entry's kind and open flag exactly.
pub proof fn lemma_restore_validation(s: Seq<(WindowKind, bool)>)
    ensures
        s.len() != window_kind_count() ==> {
            &&& spec_restore(s).len() == window_kind_count()
            &&& forall|i: int|
                0 <= i < window_kind_count() ==> #[trigger] spec_restore(s)[i] == (
                    kind_at(i),
                    false,
                )
        },
        s.len() == window_kind_count() ==> spec_restore(s) == s,
{
}

} // verus!
