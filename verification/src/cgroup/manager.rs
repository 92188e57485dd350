//! The cgroup of a virtual machine, and the controllers it has.

use vstd::prelude::*;

use crate::cgroup::cpu::CpuController;
use crate::cgroup::cpuset::CpusetController;
use crate::cgroup::error::CgroupError;
use crate::cgroup::freezer;
use crate::cgroup::freezer::{event, FreezerController};
use crate::cgroup::io::IoController;
use crate::cgroup::memory::MemoryController;
use crate::cgroup::pids::PidsController;
use crate::cgroup::util;
use crate::cgroup::util::{join, read_cgroup_file, FileWrite, Reading};
use crate::text;
use crate::text::{cat, lines, same, u64_text, words};

verus! {

/// The root of the cgroup hierarchy.
pub open spec fn cgroup2_root() -> Seq<char> {
    "/sys/fs/cgroup"@
}

/// The slice below which every virtual machine has its cgroup.
pub open spec fn fluxvm_slice() -> Seq<char> {
    "/sys/fs/cgroup/fluxvm.slice"@
}

/// The controllers that the cgroup of a virtual machine needs.
pub open spec fn delegated_controllers() -> Seq<Seq<char>> {
    seq!["cpu"@, "memory"@, "io"@, "pids"@, "cpuset"@]
}

/// The path of a cgroup.
#[derive(Debug, Clone)]
pub struct CgroupPath(pub String);

impl CgroupPath {
    /// The cgroup of a virtual machine: `fluxvm.slice/{id}.scope`.
    pub fn for_vm(id: &str) -> (r: Self)
        ensures
            r.0@ == util::path_join(fluxvm_slice(), id@ + ".scope"@),
    {
        CgroupPath(join("/sys/fs/cgroup/fluxvm.slice", cat(id, ".scope").as_str()))
    }

    /// An arbitrary path.
    pub fn from_path(path: String) -> (r: Self)
        ensures
            r.0@ == path@,
    {
        CgroupPath(path)
    }

    /// The path as a text.
    pub fn path(&self) -> (r: &str)
        ensures
            r@ == self.0@,
    {
        self.0.as_str()
    }
}

/// The state of a cgroup from `cgroup.events`.
#[derive(Debug, Clone, Copy, PartialEq, Eq, Structural)]
pub struct CgroupEvents {
    pub populated: bool,
    pub frozen: bool,
}

/// The events that the lines report; a later line overrides an earlier one.
pub open spec fn events_in(lines: Seq<Seq<char>>) -> CgroupEvents
    decreases lines.len(),
{
    if lines.len() == 0 {
        CgroupEvents { populated: false, frozen: false }
    } else {
        let before = events_in(lines.drop_last());
        match freezer::event_value(lines.last(), "populated "@) {
            Some(b) => CgroupEvents { populated: b, ..before },
            None => match freezer::event_value(lines.last(), "frozen "@) {
                Some(b) => CgroupEvents { frozen: b, ..before },
                None => before,
            },
        }
    }
}

/// What enables one controller for the children of a cgroup.
pub open spec fn enables(w: FileWrite, root: Seq<char>, controller: Seq<char>) -> bool {
    w.is(root, "cgroup.subtree_control"@, "+"@ + controller)
}

/// The delegated controllers among the first `n` that the kernel offers.
pub open spec fn offered(available: Seq<Seq<char>>, n: nat) -> Seq<Seq<char>>
    decreases n,
{
    if n == 0 {
        Seq::empty()
    } else {
        let c = delegated_controllers()[n - 1];
        let before = offered(available, (n - 1) as nat);
        if available.contains(c) {
            before.push(c)
        } else {
            before
        }
    }
}

/// Adds the write that enables `controller`, if it is among `available`.
fn delegate(
    writes: &mut Vec<FileWrite>,
    root: &str,
    available: &Vec<String>,
    controller: &str,
    Ghost(n): Ghost<nat>,
)
    requires
        n < 5,
        controller@ == delegated_controllers()[n as int],
        delegation(old(writes)@, root@, offered(text::views(available@), n)),
    ensures
        delegation(final(writes)@, root@, offered(text::views(available@), n + 1)),
{
    let ghost av = text::views(available@);
    let mut i: usize = 0;
    while i < available.len()
        invariant
            i <= available.len(),
            writes@ == old(writes)@,
            av == text::views(available@),
            forall|j: int| 0 <= j < i ==> av[j] != controller@,
            n < 5,
            controller@ == delegated_controllers()[n as int],
            delegation(old(writes)@, root@, offered(av, n)),
        decreases available.len() - i,
    {
        assert(av[i as int] == available[i as int]@);
        if same(available[i].as_str(), controller) {
            assert(av.contains(controller@));
            writes.push(FileWrite::of(root, "cgroup.subtree_control", cat("+", controller)));
            return;
        }
        i += 1;
    }
    assert(!av.contains(controller@));
}

/// The writes enable exactly these controllers, in this order.
pub open spec fn delegation(
    writes: Seq<FileWrite>,
    root: Seq<char>,
    controllers: Seq<Seq<char>>,
) -> bool {
    &&& writes.len() == controllers.len()
    &&& forall|i: int|
        0 <= i < writes.len() ==> enables(#[trigger] writes[i], root, controllers[i])
}

/// The controllers that a `cgroup.controllers` file lists; none where it
/// could not be read.
pub open spec fn listed(outcome: Result<String, String>) -> Seq<Seq<char>> {
    match outcome {
        Ok(content) => text::words_of(text::trim_of(content@)),
        Err(_) => Seq::empty(),
    }
}

/// The writes that enable the delegated controllers for the children of `root`,
/// given the outcome of reading its `cgroup.controllers`. A controller that the
/// kernel does not offer is left out.
pub fn ensure_delegation(root: &str, outcome: Result<String, String>) -> (r: Vec<FileWrite>)
    ensures
        delegation(r@, root@, offered(listed(outcome), 5)),
{
    let available = match read_cgroup_file(root, outcome) {
        Ok(content) => words(content.as_str()),
        Err(_) => Vec::new(),
    };
    assert(text::views(available@) =~= listed(outcome));
    let mut writes: Vec<FileWrite> = Vec::new();
    delegate(&mut writes, root, &available, "cpu", Ghost(0));
    delegate(&mut writes, root, &available, "memory", Ghost(1));
    delegate(&mut writes, root, &available, "io", Ghost(2));
    delegate(&mut writes, root, &available, "pids", Ghost(3));
    delegate(&mut writes, root, &available, "cpuset", Ghost(4));
    writes
}

/// The cgroups at which controllers are delegated, outermost first.
pub fn delegation_roots() -> (r: Vec<String>)
    ensures
        text::views(r@) == seq![cgroup2_root(), fluxvm_slice()],
{
    let mut out: Vec<String> = Vec::new();
    out.push("/sys/fs/cgroup".to_owned());
    out.push("/sys/fs/cgroup/fluxvm.slice".to_owned());
    assert(text::views(out@) =~= seq![cgroup2_root(), fluxvm_slice()]);
    out
}

/// The cgroup of one virtual machine, with its controllers.
#[derive(Debug)]
pub struct CgroupManager {
    pub path: CgroupPath,
}

/// How a virtual machine gets its cgroup: create the directory, then write.
#[derive(Debug)]
pub struct Migration {
    pub manager: CgroupManager,
    pub directory: String,
    pub procs: FileWrite,
}

impl CgroupManager {
    /// The manager of an existing cgroup; `exists` tells whether `path` is a
    /// directory.
    pub open spec fn opens(
        r: Result<CgroupManager, CgroupError>,
        path: Seq<char>,
        exists: bool,
    ) -> bool {
        match r {
            Ok(m) => exists && m.path.0@ == path,
            Err(CgroupError::NotFound(p)) => !exists && p@ == path,
            Err(_) => false,
        }
    }

    /// Opens the cgroup of a virtual machine.
    pub fn for_vm(id: &str, exists: bool) -> (r: Result<Self, CgroupError>)
        ensures
            CgroupManager::opens(r, util::path_join(fluxvm_slice(), id@ + ".scope"@), exists),
    {
        let path = CgroupPath::for_vm(id);
        if !exists {
            return Err(CgroupError::NotFound(path.0));
        }
        Ok(CgroupManager { path })
    }

    /// Opens the cgroup at an arbitrary path.
    pub fn from_path(path: String, exists: bool) -> (r: Result<Self, CgroupError>)
        ensures
            CgroupManager::opens(r, path@, exists),
    {
        let path = CgroupPath::from_path(path);
        if !exists {
            return Err(CgroupError::NotFound(path.0));
        }
        Ok(CgroupManager { path })
    }

    /// Gives a virtual machine its cgroup and moves its process `pid` into it.
    pub fn create_and_migrate(id: &str, pid: u32) -> (r: Migration)
        ensures
            r.manager.path.0@ == util::path_join(fluxvm_slice(), id@ + ".scope"@),
            r.directory@ == r.manager.path.0@,
            r.procs.is(r.directory@, "cgroup.procs"@, text::decimal_text(pid as nat)),
    {
        let path = CgroupPath::for_vm(id);
        let directory = path.0.clone();
        let procs = FileWrite::of(directory.as_str(), "cgroup.procs", u64_text(pid as u64));
        Migration { manager: CgroupManager { path }, directory, procs }
    }

    /// The directory to remove once the cgroup is empty.
    pub fn remove(&self) -> (r: String)
        ensures
            r@ == self.path.0@,
    {
        self.path.0.clone()
    }

    /// The path of the cgroup.
    pub fn path(&self) -> (r: &str)
        ensures
            r@ == self.path.0@,
    {
        self.path.path()
    }

    /// The cpu controller.
    pub fn cpu(&self) -> (r: CpuController)
        ensures
            r.path@ == self.path.0@,
    {
        CpuController::new(self.path.0.clone())
    }

    /// The memory controller.
    pub fn memory(&self) -> (r: MemoryController)
        ensures
            r.path@ == self.path.0@,
    {
        MemoryController::new(self.path.0.clone())
    }

    /// The io controller.
    pub fn io(&self) -> (r: IoController)
        ensures
            r.path@ == self.path.0@,
    {
        IoController::new(self.path.0.clone())
    }

    /// The pids controller.
    pub fn pids(&self) -> (r: PidsController)
        ensures
            r.path@ == self.path.0@,
    {
        PidsController::new(self.path.0.clone())
    }

    /// The cpuset controller.
    pub fn cpuset(&self) -> (r: CpusetController)
        ensures
            r.path@ == self.path.0@,
    {
        CpusetController::new(self.path.0.clone())
    }

    /// The freezer.
    pub fn freezer(&self) -> (r: FreezerController)
        ensures
            r.path@ == self.path.0@,
    {
        FreezerController::new(self.path.0.clone())
    }

    /// Reads from `cgroup.controllers` which controllers are available.
    pub fn available_controllers(&self, outcome: Option<Result<String, String>>) -> (r: Reading<
        Vec<String>,
    >)
        ensures
            util::reads(
                r,
                util::path_join(self.path.0@, "cgroup.controllers"@),
                outcome,
                |t: Seq<char>, d: Result<Vec<String>, CgroupError>|
                    d matches Ok(v) && text::views(v@) == text::words_of(t),
            ),
    {
        let file = join(self.path.0.as_str(), "cgroup.controllers");
        match outcome {
            None => Reading::Need(file),
            Some(o) => match read_cgroup_file(file.as_str(), o) {
                Ok(content) => Reading::Done(Ok(words(content.as_str()))),
                Err(e) => Reading::Done(Err(e)),
            },
        }
    }

    /// Reads `cgroup.events`.
    pub fn events(&self, outcome: Option<Result<String, String>>) -> (r: Reading<CgroupEvents>)
        ensures
            util::reads(
                r,
                util::path_join(self.path.0@, "cgroup.events"@),
                outcome,
                |t: Seq<char>, d: Result<CgroupEvents, CgroupError>|
                    d matches Ok(v) && v == events_in(text::lines_of(t)),
            ),
    {
        let file = join(self.path.0.as_str(), "cgroup.events");
        match outcome {
            None => Reading::Need(file),
            Some(o) => match read_cgroup_file(file.as_str(), o) {
                Ok(content) => {
                    let all = lines(content.as_str());
                    let ghost ls = text::lines_of(content@);
                    let mut events = CgroupEvents { populated: false, frozen: false };
                    let mut i: usize = 0;
                    assert(ls.take(0) =~= Seq::<Seq<char>>::empty());
                    while i < all.len()
                        invariant
                            i <= all.len(),
                            text::views(all@) == ls,
                            events == events_in(ls.take(i as int)),
                        decreases all.len() - i,
                    {
                        proof {
                            assert(ls.take(i + 1).drop_last() =~= ls.take(i as int));
                            assert(ls.take(i + 1).last() == all[i as int]@);
                        }
                        if let Some(b) = event(all[i].as_str(), "populated ") {
                            events.populated = b;
                        } else if let Some(b) = event(all[i].as_str(), "frozen ") {
                            events.frozen = b;
                        }
                        i += 1;
                    }
                    assert(ls.take(all.len() as int) =~= ls);
                    Reading::Done(Ok(events))
                },
                Err(e) => Reading::Done(Err(e)),
            },
        }
    }
}

} // verus!
