//! A filter for the loader: which processes a framework of modules wants to
//! be loaded into.

use crate::text::str_eq;
use vstd::prelude::*;

verus! {

/// User id of the system.
pub const SYSTEM_UID: u32 = 1000;

/// Package in whose processes the framework's manager lives.
pub const PARASITIC_PACKAGE: &'static str = "com.android.shell";

/// Package of the framework's manager.
pub const MANAGER_PACKAGE: &'static str = "org.lsposed.manager";

/// Number of user ids that each user of the device has.
pub const PER_USER_RANGE: u32 = 100000;

/// An application in the scope of an enabled module.
#[derive(Debug)]
pub struct ScopeInfo {
    /// Name of the package.
    pub pkg: String,
    /// The user of the device for whom the module is enabled.
    pub user: u32,
}

/// An application in the scope of a module, with its name as a text.
pub struct ScopeView {
    pub pkg: Seq<char>,
    pub user: u32,
}

impl View for ScopeInfo {
    type V = ScopeView;

    open spec fn view(&self) -> ScopeView {
        ScopeView { pkg: self.pkg@, user: self.user }
    }
}

/// The scope as a sequence of plain values.
pub open spec fn scope_view(scope: Seq<ScopeInfo>) -> Seq<ScopeView> {
    scope.map_values(|s: ScopeInfo| s@)
}

/// Whether a process is loaded into: the system always; a process with a
/// package when the package is the manager's or its host's, or when it is
/// in the scope of a module for the user that the process belongs to.
pub open spec fn wanted(uid: u32, pkg: Option<Seq<char>>, scope: Seq<ScopeView>) -> bool {
    uid == SYSTEM_UID || match pkg {
        Some(name) => {
            ||| name == PARASITIC_PACKAGE@
            ||| name == MANAGER_PACKAGE@
            ||| scope.contains(ScopeView { pkg: name, user: uid / PER_USER_RANGE })
        },
        None => false,
    }
}

/// No entry occurs twice.
pub open spec fn distinct(scope: Seq<ScopeView>) -> bool {
    forall|i: int, j: int| 0 <= i < j < scope.len() ==> scope[i] != scope[j]
}

/// The scope of the enabled modules: the applications that they want, each
/// once, in the order in which they were entered.
#[derive(Debug)]
pub struct Scope {
    entries: Vec<ScopeInfo>,
}

impl View for Scope {
    type V = Seq<ScopeView>;

    closed spec fn view(&self) -> Seq<ScopeView> {
        scope_view(self.entries@)
    }
}

impl Scope {
    /// No application is entered twice.
    pub open spec fn wf(&self) -> bool {
        distinct(self@)
    }

    /// A scope without applications.
    pub fn new() -> (scope: Self)
        ensures
            scope.wf(),
            scope@ == Seq::<ScopeView>::empty(),
    {
        let scope = Scope { entries: Vec::new() };
        assert(scope@ =~= Seq::<ScopeView>::empty());
        scope
    }

    /// The number of applications in the scope.
    pub fn len(&self) -> (n: usize)
        ensures
            n == self@.len(),
    {
        self.entries.len()
    }

    /// Whether the scope holds the package `pkg` for the user `user`.
    pub fn contains(&self, user: u32, pkg: &str) -> (held: bool)
        ensures
            held == self@.contains(ScopeView { pkg: pkg@, user }),
    {
        let ghost sought = ScopeView { pkg: pkg@, user };
        let mut i: usize = 0;
        while i < self.entries.len()
            invariant
                i <= self.entries@.len(),
                sought == (ScopeView { pkg: pkg@, user }),
                forall|k: int| 0 <= k < i ==> self@[k] != sought,
            decreases self.entries@.len() - i,
        {
            assert(self@[i as int] == self.entries@[i as int]@);
            if self.entries[i].user == user && str_eq(self.entries[i].pkg.as_str(), pkg) {
                assert(self@[i as int] == sought);
                return true;
            }
            i += 1;
        }
        false
    }

    /// Enters an application. One that the scope holds already is not
    /// entered again; the answer says whether it was new.
    pub fn insert(&mut self, info: ScopeInfo) -> (added: bool)
        requires
            old(self).wf(),
        ensures
            final(self).wf(),
            added == !old(self)@.contains(info@),
            final(self)@ == if added {
                old(self)@.push(info@)
            } else {
                old(self)@
            },
    {
        if self.contains(info.user, info.pkg.as_str()) {
            return false;
        }
        let ghost before = self@;
        let ghost entered = info@;
        self.entries.push(info);
        assert(self@ =~= before.push(entered));
        assert forall|i: int, j: int| 0 <= i < j < self@.len() implies self@[i] != self@[j] by {
            if j == before.len() {
                assert(before.contains(before[i]));
            }
        }
        true
    }
}

/// Whether the process with user id `uid` and package `pkg` is loaded into,
/// given the scope of the enabled modules.
pub fn check_process(uid: u32, pkg: Option<&str>, scope: &Scope) -> (inject: bool)
    ensures
        inject == wanted(
            uid,
            match pkg {
                Some(name) => Some(name@),
                None => None,
            },
            scope@,
        ),
{
    if uid == SYSTEM_UID {
        return true;
    }
    match pkg {
        None => false,
        Some(name) => {
            if str_eq(name, PARASITIC_PACKAGE) || str_eq(name, MANAGER_PACKAGE) {
                return true;
            }
            scope.contains(uid / PER_USER_RANGE, name)
        },
    }
}

/// What is done when the database of scopes may have changed.
#[derive(Clone, Copy, Debug, PartialEq, Eq, Structural)]
pub enum Change {
    /// The scope is read again.
    Reload,
    /// The monitor waits a moment and then reports the change as settled.
    Settle,
    /// Nothing: a change is already waiting to settle.
    Ignore,
}

/// Watches the database of scopes. Changes that follow each other closely
/// lead to one reading.
#[derive(Debug)]
pub struct ScopeMonitor {
    debounce: bool,
}

impl ScopeMonitor {
    /// Whether a change is waiting to settle.
    pub closed spec fn waiting(&self) -> bool {
        self.debounce
    }

    /// A monitor for which no change is waiting.
    pub fn new() -> (monitor: Self)
        ensures
            !monitor.waiting(),
    {
        Self { debounce: false }
    }

    /// Takes the news of a change. `settled` says that a change which was
    /// waiting has settled: the scope is then read. Any other change starts
    /// the waiting, unless one is waiting already.
    pub fn setup(&mut self, settled: bool) -> (change: Change)
        ensures
            change == if settled {
                Change::Reload
            } else if !old(self).waiting() {
                Change::Settle
            } else {
                Change::Ignore
            },
            final(self).waiting() == (!settled),
    {
        if settled {
            self.debounce = false;
            Change::Reload
        } else if !self.debounce {
            self.debounce = true;
            Change::Settle
        } else {
            Change::Ignore
        }
    }
}

} // verus!
