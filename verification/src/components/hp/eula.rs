use vstd::prelude::*;

verus! {

#[derive(Debug, Clone, Copy, PartialEq, Eq)]
pub struct Model {}

/// The name of the desktop shortcut that marks the machine TCO certified.
pub const SHORTCUT_NAME: &'static str = "hp-tco-certified.desktop";

/// The step at which creating the TCO certified shortcut failed.
#[derive(Debug, Clone, Copy, PartialEq, Eq)]
pub enum TcoFailure {
    /// There is no desktop directory to put the shortcut in.
    NoDesktopDir,
    /// The shortcut file could not be opened.
    Open,
    /// The shortcut file could not be written.
    Write,
    /// The shortcut could not be marked trusted.
    Trust,
}

/// The message that reports a failure at `failure`, for the shortcut at
/// `path`, with `detail` saying what went wrong there.
pub open spec fn tco_message(failure: TcoFailure, path: Seq<char>, detail: Seq<char>) -> Seq<
    char,
> {
    match failure {
        TcoFailure::NoDesktopDir => "failed to get desktop directory"@,
        TcoFailure::Open => "failed to open "@ + path + ": "@ + detail,
        TcoFailure::Write => "failed to write "@ + path + ": "@ + detail,
        TcoFailure::Trust => "failed to set "@ + path + " as trusted: "@ + detail,
    }
}

/// Every failure report but the one without a desktop directory names the
/// shortcut's path and ends with what went wrong; each step reports
/// differently.
pub proof fn lemma_tco_message_names_failure(failure: TcoFailure, path: Seq<char>, detail: Seq<char>)
    ensures
        !(failure is NoDesktopDir) ==> ({
            let m = tco_message(failure, path, detail);
            &&& m.subrange(m.len() - detail.len(), m.len() as int) == detail
            &&& exists|k: int| 0 <= k && k + path.len() <= m.len() && #[trigger] m.subrange(
                k,
                k + path.len(),
            ) == path
        }),
        tco_message(TcoFailure::Open, path, detail) != tco_message(TcoFailure::Write, path, detail),
        tco_message(TcoFailure::Open, path, detail) != tco_message(TcoFailure::Trust, path, detail),
        tco_message(TcoFailure::Write, path, detail) != tco_message(TcoFailure::Trust, path, detail),
{
    reveal_strlit("failed to open ");
    reveal_strlit("failed to write ");
    reveal_strlit("failed to set ");
    reveal_strlit(": ");
    reveal_strlit(" as trusted: ");
    let m = tco_message(failure, path, detail);
    if !(failure is NoDesktopDir) {
        assert(m.subrange(m.len() - detail.len(), m.len() as int) =~= detail);
        let k: int = match failure {
            TcoFailure::Open => 15,
            TcoFailure::Write => 16,
            _ => 14,
        };
        assert(m.subrange(k, k + path.len()) =~= path);
    }
    let o = tco_message(TcoFailure::Open, path, detail);
    let w = tco_message(TcoFailure::Write, path, detail);
    let t = tco_message(TcoFailure::Trust, path, detail);
    assert(o[10] != w[10]);
    assert(o[10] != t[10]);
    assert(w[10] != t[10]);
}

/// Reports a failure to create the TCO certified shortcut.
pub fn tco_error(failure: TcoFailure, path: &str, detail: &str) -> (message: String)
    ensures
        message@ == tco_message(failure, path@, detail@),
{
    match failure {
        TcoFailure::NoDesktopDir => String::from_str("failed to get desktop directory"),
        TcoFailure::Open => {
            let mut message = String::from_str("failed to open ");
            message.append(path);
            message.append(": ");
            message.append(detail);
            message
        },
        TcoFailure::Write => {
            let mut message = String::from_str("failed to write ");
            message.append(path);
            message.append(": ");
            message.append(detail);
            message
        },
        TcoFailure::Trust => {
            let mut message = String::from_str("failed to set ");
            message.append(path);
            message.append(" as trusted: ");
            message.append(detail);
            message
        },
    }
}

/// The arguments of `gio` that mark the shortcut at `path` trusted.
pub fn trust_args(path: &str) -> (args: Vec<String>)
    ensures
        args@.len() == 4,
        args@[0]@ == "set"@,
        args@[1]@ == path@,
        args@[2]@ == "metadata::trusted"@,
        args@[3]@ == "true"@,
{
    let mut args = Vec::new();
    args.push(String::from_str("set"));
    args.push(String::from_str(path));
    args.push(String::from_str("metadata::trusted"));
    args.push(String::from_str("true"));
    args
}

} // verus!
