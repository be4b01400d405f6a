//! Installation of the display filter driver service: what to do after
//! trying to open the service, and where the driver file lies.
use vstd::prelude::*;
use crate::capture::chars_of;
use crate::text::push_char;

verus! {

/// The status the service manager reports for a service that is not
/// installed (`0x80070424`, as a signed status code).
pub const ERROR_SERVICE_DOES_NOT_EXIST: i32 = -2147023836;

/// The outcome of opening the driver's service.
#[derive(PartialEq, Eq, Structural, Debug, Clone, Copy)]
pub enum ServiceOpen {
    /// The service opened.
    Opened,
    /// Opening failed with this status code.
    Failed(i32),
}

/// What to do with the driver's service.
#[derive(PartialEq, Eq, Structural, Debug, Clone, Copy)]
pub enum InstallAction {
    /// Start the service.
    Start,
    /// Create the service as a demand-start kernel driver, then open and start it.
    CreateThenStart,
    /// Leave the service alone.
    Nothing,
}

/// An opened service is started; a service that does not exist is created
/// and then started; any other failure is left alone.
pub fn install_action(open: ServiceOpen) -> (a: InstallAction)
    ensures
        a == match open {
            ServiceOpen::Opened => InstallAction::Start,
            ServiceOpen::Failed(code) => if code == ERROR_SERVICE_DOES_NOT_EXIST {
                InstallAction::CreateThenStart
            } else {
                InstallAction::Nothing
            },
        },
{
    match open {
        ServiceOpen::Opened => InstallAction::Start,
        ServiceOpen::Failed(code) => if code == ERROR_SERVICE_DOES_NOT_EXIST {
            InstallAction::CreateThenStart
        } else {
            InstallAction::Nothing
        },
    }
}

/// Whether a character separates path components on Windows.
pub open spec fn is_sep(c: char) -> bool {
    c == '\\' || c == '/'
}

/// The position of the last separator in a path, or -1 without one.
pub open spec fn last_separator(s: Seq<char>) -> int
    decreases s.len(),
{
    if s.len() == 0 {
        -1
    } else if is_sep(s.last()) {
        s.len() - 1
    } else {
        last_separator(s.drop_last())
    }
}

/// Whether the directory part of a path is only a root: nothing, or a drive.
pub open spec fn is_root_dir(d: Seq<char>) -> bool {
    d.len() == 0 || (d.len() == 2 && d[1] == ':')
}

/// The paths whose file name is replaced as `PathBuf::set_file_name` does on
/// Windows by `driver_binary_path`: the path has a separator, a file name
/// after the last one that is neither `.` nor `..`, no doubled separator
/// before the file name, a directory that does not end in a `.` component,
/// and no network or verbatim prefix (it does not start with two separators).
pub open spec fn replaceable_file_path(s: Seq<char>) -> bool {
    let k = last_separator(s);
    &&& 0 <= k < s.len() - 1
    &&& s.subrange(k + 1, s.len() as int) != "."@ && s.subrange(k + 1, s.len() as int) != ".."@
    &&& k > 0 ==> !is_sep(s[k - 1])
    &&& k > 0 ==> !(s[k - 1] == '.' && (k == 1 || is_sep(s[k - 2])))
    &&& !(s.len() >= 2 && is_sep(s[0]) && is_sep(s[1]))
}

/// The driver file beside the program: the program's file name replaced by
/// `DispFilter.sys`. A directory that is only a root keeps its separator;
/// another directory gets a backslash before the new name.
pub open spec fn driver_binary_path_spec(exe: Seq<char>) -> Seq<char> {
    let k = last_separator(exe);
    let dir = exe.take(k);
    if is_root_dir(dir) {
        exe.take(k + 1) + "DispFilter.sys"@
    } else {
        dir + "\\DispFilter.sys"@
    }
}

/// The last separator of a path lies in it and no separator follows it.
proof fn lemma_last_separator(s: Seq<char>)
    ensures
        -1 <= last_separator(s) < s.len(),
        last_separator(s) >= 0 ==> is_sep(s[last_separator(s)]),
        forall|j: int| last_separator(s) < j < s.len() ==> !is_sep(#[trigger] s[j]),
    decreases s.len(),
{
    if s.len() > 0 && !is_sep(s.last()) {
        lemma_last_separator(s.drop_last());
        assert forall|j: int| last_separator(s) < j < s.len() implies !is_sep(#[trigger] s[j]) by {
            if j < s.len() - 1 {
                assert(s.drop_last()[j] == s[j]);
            }
        }
    }
}

/// The path of the driver file next to the program at `exe`.
pub fn driver_binary_path(exe: &str) -> (p: String)
    requires
        replaceable_file_path(exe@),
    ensures
        p@ == driver_binary_path_spec(exe@),
{
    let cs = chars_of(exe);
    let mut k: usize = cs.len();
    proof {
        lemma_last_separator(cs@);
    }
    while k > 0 && !(cs[k - 1] == '\\' || cs[k - 1] == '/')
        invariant
            0 <= k <= cs@.len(),
            last_separator(cs@) < k,
            forall|j: int| last_separator(cs@) < j < cs@.len() ==> !is_sep(#[trigger] cs@[j]),
            last_separator(cs@) >= 0 ==> is_sep(cs@[last_separator(cs@)]),
            forall|j: int| k <= j < cs@.len() ==> !is_sep(#[trigger] cs@[j]),
        decreases k,
    {
        k = k - 1;
    }
    let ghost ls = last_separator(cs@);
    proof {
        assert(ls >= 0);
        if ls < k - 1 {
            assert(!is_sep(cs@[k - 1]));
        }
        assert(ls == k - 1);
    }
    let sep = k - 1;
    let root = sep == 0 || (sep == 2 && cs[1] == ':');
    let end = if root {
        sep + 1
    } else {
        sep
    };
    let mut p = String::new();
    let mut i: usize = 0;
    while i < end
        invariant
            0 <= i <= end <= cs@.len(),
            p@ == cs@.take(i as int),
        decreases end - i,
    {
        push_char(&mut p, cs[i]);
        proof {
            assert(cs@.take(i + 1) == cs@.take(i as int).push(cs@[i as int]));
        }
        i = i + 1;
    }
    if root {
        p.append("DispFilter.sys");
    } else {
        p.append("\\DispFilter.sys");
    }
    proof {
        reveal_strlit("DispFilter.sys");
        reveal_strlit("\\DispFilter.sys");
        let dir = cs@.take(sep as int);
        assert(is_root_dir(dir) == root);
    }
    p
}

} // verus!
