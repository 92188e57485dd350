//! Stopping and continuing all processes of a cgroup.

use vstd::prelude::*;

use crate::cgroup::error::CgroupError;
use crate::cgroup::util;
use crate::cgroup::util::{join, read_cgroup_file, FileWrite, Reading};
use crate::text;
use crate::text::{lines, same, strip_prefix, trim};

verus! {

/// The value of an event line of the given name: whether it is `1`.
pub open spec fn event_value(line: Seq<char>, prefix: Seq<char>) -> Option<bool> {
    match text::after_prefix(text::trim_of(line), prefix) {
        Some(value) => Some(text::trim_of(value) == "1"@),
        None => None,
    }
}

/// Reads the value of an event line of the given name.
pub(crate) fn event(line: &str, prefix: &str) -> (r: Option<bool>)
    ensures
        r == event_value(line@, prefix@),
{
    match strip_prefix(trim(line).as_str(), prefix) {
        Some(value) => Some(same(trim(value.as_str()).as_str(), "1")),
        None => None,
    }
}

/// The first `frozen` line decides; without one the cgroup is not frozen.
pub open spec fn frozen_in(lines: Seq<Seq<char>>) -> bool
    decreases lines.len(),
{
    if lines.len() == 0 {
        false
    } else {
        match event_value(lines[0], "frozen "@) {
            Some(b) => b,
            None => frozen_in(lines.skip(1)),
        }
    }
}

/// The freezer of one cgroup.
pub struct FreezerController {
    pub path: String,
}

impl FreezerController {
    pub fn new(path: String) -> (r: Self)
        ensures
            r.path@ == path@,
    {
        FreezerController { path }
    }

    /// Freezes the cgroup.
    pub fn freeze(&self) -> (r: FileWrite)
        ensures
            r.is(self.path@, "cgroup.freeze"@, "1"@),
    {
        FileWrite::of(self.path.as_str(), "cgroup.freeze", "1".to_owned())
    }

    /// Thaws the cgroup.
    pub fn thaw(&self) -> (r: FileWrite)
        ensures
            r.is(self.path@, "cgroup.freeze"@, "0"@),
    {
        FileWrite::of(self.path.as_str(), "cgroup.freeze", "0".to_owned())
    }

    /// Tells from `cgroup.events` whether the cgroup is frozen.
    pub fn is_frozen(&self, outcome: Option<Result<String, String>>) -> (r: Reading<bool>)
        ensures
            util::reads(
                r,
                util::path_join(self.path@, "cgroup.events"@),
                outcome,
                |t: Seq<char>, d: Result<bool, CgroupError>|
                    d matches Ok(b) && b == frozen_in(text::lines_of(t)),
            ),
    {
        let file = join(self.path.as_str(), "cgroup.events");
        match outcome {
            None => Reading::Need(file),
            Some(o) => match read_cgroup_file(file.as_str(), o) {
                Ok(content) => {
                    let all = lines(content.as_str());
                    let ghost ls = text::lines_of(content@);
                    let mut i: usize = 0;
                    assert(ls.skip(0) =~= ls);
                    while i < all.len()
                        invariant
                            i <= all.len(),
                            text::views(all@) == ls,
                            frozen_in(ls.skip(i as int)) == frozen_in(ls),
                            outcome matches Some(Ok(c)) && content@ == text::trim_of(c@),
                            ls == text::lines_of(content@),
                        decreases all.len() - i,
                    {
                        proof {
                            assert(ls.skip(i as int)[0] == all[i as int]@);
                            assert(ls.skip(i as int).skip(1) =~= ls.skip(i + 1));
                        }
                        if let Some(b) = event(all[i].as_str(), "frozen ") {
                            return Reading::Done(Ok(b));
                        }
                        i += 1;
                    }
                    Reading::Done(Ok(false))
                },
                Err(e) => Reading::Done(Err(e)),
            },
        }
    }
}

} // verus!
