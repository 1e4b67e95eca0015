//! Unpacking of an appliance image: which command unpacks it, and where
//! the unpacked image goes. The caller runs the command and writes what
//! it prints to that place.

use vstd::prelude::*;
use vstd::string::*;

use crate::boot_manager::{call_view, CmdCallView};
use crate::ensured_commands::{CmdCall, EnsuredCommands, GZIP_CMD};
use crate::error::{MigError, MigErrorKind};
use crate::text::{chars_of, is_separator, string_of};

verus! {

/// Whether the file name of `path` has an extension that begins at `k`:
/// `path` holds a dot at `k`, no dot and no separator behind it, and a
/// character of the file name before it.
pub open spec fn extension_at(path: Seq<char>, k: int) -> bool {
    &&& 0 < k < path.len()
    &&& path[k] == '.'
    &&& !is_separator(path[k - 1])
    &&& forall|i: int| k < i < path.len() ==> path[i] != '.' && !is_separator(#[trigger] path[i])
}

/// Whether the file name of `path` has an extension.
pub open spec fn has_extension(path: Seq<char>) -> bool {
    exists|k: int| extension_at(path, k)
}

/// Where the extension of the file name of `path` begins, if it has one.
fn find_extension(path: &Vec<char>) -> (r: Option<usize>)
    ensures
        match r {
            Some(k) => extension_at(path@, k as int),
            None => !has_extension(path@),
        },
{
    let mut k: usize = path.len();
    while k > 0
        invariant
            k <= path.len(),
            forall|i: int| k <= i < path.len() ==> path@[i] != '.' && !is_separator(
                #[trigger] path@[i],
            ),
        decreases k,
    {
        let c = path[k - 1];
        if c == '/' || c == '\\' {
            assert forall|j: int| !extension_at(path@, j) by {
                if extension_at(path@, j) {
                    if j < k - 1 {
                        assert(!is_separator(path@[k - 1]));
                    } else if j == k - 1 {
                    } else {
                        assert(path@[j] != '.');
                    }
                }
            }
            return None;
        }
        if c == '.' {
            if k - 1 > 0 && !(path[k - 2] == '/' || path[k - 2] == '\\') {
                return Some(k - 1);
            }
            assert forall|j: int| !extension_at(path@, j) by {
                if extension_at(path@, j) {
                    if j < k - 1 {
                        assert(path@[k - 1] != '.');
                    } else if j == k - 1 {
                    } else {
                        assert(path@[j] != '.');
                    }
                }
            }
            return None;
        }
        k -= 1;
    }
    assert forall|j: int| !extension_at(path@, j) by {
        if extension_at(path@, j) {
            assert(path@[j] != '.');
        }
    }
    None
}

/// Plans the unpacking of the image at `image`: the call of `gzip` that
/// prints the unpacked image, and the path of the unpacked image, which
/// is that of the image without the extension of its file name.
///
/// Fails with `InvParam` where the file name of the image has no
/// extension, or where `gzip` was not ensured.
pub fn extract(cmds: &EnsuredCommands, image: &str) -> (r: Result<(CmdCall, String), MigError>)
    ensures
        match r {
            Ok((call, to)) => {
                &&& cmds@.contains_key(GZIP_CMD@)
                &&& call_view(call) == (CmdCallView {
                    program: cmds@[GZIP_CMD@],
                    args: seq!["-d"@, "-c"@, image@],
                    trim_stdout: false,
                })
                &&& exists|k: int| extension_at(image@, k) && to@ == image@.take(k)
            },
            Err(e) => e.spec_kind() == MigErrorKind::InvParam && !(cmds@.contains_key(GZIP_CMD@)
                && has_extension(image@)),
        },
{
    let chars = chars_of(image);
    let k = match find_extension(&chars) {
        Some(k) => k,
        None => {
            return Err(
                MigError::from_remark(MigErrorKind::InvParam, "the image has no extension"),
            );
        },
    };
    let mut args: Vec<&str> = Vec::new();
    args.push("-d");
    args.push("-c");
    args.push(image);
    let call = match cmds.call_cmd(GZIP_CMD, args.as_slice(), false) {
        Ok(call) => call,
        Err(e) => {
            return Err(e);
        },
    };
    let mut stem: Vec<char> = Vec::new();
    let mut i: usize = 0;
    while i < k
        invariant
            i <= k < chars.len(),
            stem@ == chars@.take(i as int),
        decreases k - i,
    {
        stem.push(chars[i]);
        assert(chars@.take(i as int).push(chars@[i as int]) =~= chars@.take(i + 1));
        i += 1;
    }
    assert(call_view(call).args =~= seq!["-d"@, "-c"@, image@]);
    Ok((call, string_of(&stem)))
}

} // verus!
