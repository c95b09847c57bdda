//! The rules by which the command line's paths are accepted or refused.
//!
//! Nothing here touches the file system. A caller looks at the path and
//! hands in what it found.

use crate::failure::Failure;
use crate::text::same_text;
use vstd::prelude::*;
use vstd::string::StringExecFns;

verus! {

/// The permission bits that let someone read a file.
pub const READ_BITS: u32 = 0o444;

/// What was found of one entry of a directory.
#[derive(Debug, Clone, Copy)]
pub enum EntryProbe {
    /// The entry could not be read.
    Unreadable,
    /// The entry was read. `mode` holds the permission bits of its path,
    /// `None` where its metadata could not be read.
    Entry { is_file: bool, mode: Option<u32> },
}

/// What was found at a path.
#[derive(Debug, Clone)]
pub struct PathProbe {
    /// Something exists at the path.
    pub exists: bool,
    /// The path is a directory.
    pub is_dir: bool,
    /// The path is a regular file.
    pub is_file: bool,
    /// The permission bits of the path; `None` where its metadata could not
    /// be read.
    pub mode: Option<u32>,
    /// The file at the path can not be written.
    pub readonly: bool,
    /// The entries of the directory at the path; `None` where it could not
    /// be listed.
    pub entries: Option<Vec<EntryProbe>>,
}

/// True when the permission bits let someone read.
pub open spec fn mode_is_readable(mode: u32) -> bool {
    mode & READ_BITS > 0
}

/// True of an entry that is a regular file which someone can read.
pub open spec fn entry_is_readable_file(entry: EntryProbe) -> bool {
    entry matches EntryProbe::Entry { is_file, mode: Some(bits) } && is_file && mode_is_readable(
        bits,
    )
}

/// The entries of a listing, in order; `None` where there is no listing.
pub open spec fn listing(entries: Option<Vec<EntryProbe>>) -> Option<Seq<EntryProbe>> {
    match entries {
        Some(list) => Some(list@),
        None => None,
    }
}

/// True of a listing of regular files all of which someone can read.
pub open spec fn is_flat_readable(entries: Option<Seq<EntryProbe>>) -> bool {
    entries matches Some(list) && forall|i: int|
        0 <= i < list.len() ==> entry_is_readable_file(#[trigger] list[i])
}

/// Why an output target is refused, or `None` where it is accepted.
pub open spec fn output_refusal(output: Seq<char>, probe: PathProbe) -> Option<Seq<char>> {
    if output == "stdout"@ {
        None
    } else if !probe.exists {
        None
    } else if !probe.is_file {
        Some(output + " is not a file"@)
    } else if probe.readonly {
        Some("read-only file "@ + output)
    } else {
        None
    }
}

/// Why a license file is refused, or `None` where it is accepted.
pub open spec fn license_refusal(license: Seq<char>, probe: PathProbe) -> Option<Seq<char>> {
    if !probe.exists {
        Some(license + " does not exist"@)
    } else if probe.is_dir {
        Some(license + " is a directory"@)
    } else if probe.mode matches Some(bits) && mode_is_readable(bits) {
        None
    } else {
        Some(license + " cannot be read"@)
    }
}

/// Why an input source is refused, or `None` where it is accepted.
pub open spec fn input_refusal(input: Seq<char>, probe: PathProbe) -> Option<Seq<char>> {
    if input == "stdin"@ {
        None
    } else if !probe.exists {
        Some("input path "@ + input + " does not exist"@)
    } else if probe.is_dir {
        if is_flat_readable(listing(probe.entries)) {
            None
        } else {
            Some(input + " isn't a flat directory of readable files"@)
        }
    } else if probe.is_file {
        match probe.mode {
            Some(bits) => if mode_is_readable(bits) {
                None
            } else {
                Some("file "@ + input + " is not readable"@)
            },
            None => Some("Other(\"unable to read file metadata\")"@),
        }
    } else {
        Some(input + " has an unknown filetype"@)
    }
}

/// Why the options about the license are refused, or `None` where they are
/// accepted: a license needs the identifier under which it is known.
pub open spec fn license_options_refusal(license: Option<Seq<char>>, has_spdx: bool) -> Option<
    Seq<char>,
> {
    match license {
        Some(path) if !has_spdx => Some("missing the spdx identifier for "@ + path),
        _ => None,
    }
}

/// The verdict that a refusal stands for.
pub open spec fn verdict_is(verdict: Result<(), String>, refusal: Option<Seq<char>>) -> bool {
    match refusal {
        None => verdict is Ok,
        Some(message) => verdict matches Err(m) && m@ == message,
    }
}

/// Decides from the permission bits of a file whether someone can read it.
/// `mode` is `None` where the metadata could not be read.
pub fn file_is_readable(mode: Option<u32>) -> (readable: Result<bool, Failure>)
    ensures
        match mode {
            Some(bits) => readable == Ok::<bool, Failure>(mode_is_readable(bits)),
            None => readable matches Err(Failure::Other(m)) && m@
                == "unable to read file metadata"@,
        },
{
    match mode {
        Some(bits) => Ok((bits & READ_BITS) > 0),
        None => Err(Failure::Other(String::from_str("unable to read file metadata"))),
    }
}

/// Decides whether an entry is a regular file which someone can read.
fn entry_is_fine(entry: EntryProbe) -> (fine: bool)
    ensures
        fine == entry_is_readable_file(entry),
{
    match entry {
        EntryProbe::Entry { is_file, mode } => {
            if !is_file {
                return false;
            }
            match file_is_readable(mode) {
                Ok(is_readable) => is_readable,
                Err(_) => false,
            }
        },
        EntryProbe::Unreadable => false,
    }
}

/// Decides whether a listing is one of regular files all of which someone
/// can read. `entries` is `None` where the directory could not be listed.
pub fn is_flat_dir_of_readable_files(entries: &Option<Vec<EntryProbe>>) -> (flat: bool)
    ensures
        flat == is_flat_readable(listing(*entries)),
{
    let list = match entries {
        Some(list) => list,
        None => {
            return false;
        },
    };
    let mut i: usize = 0;
    while i < list.len()
        invariant
            i <= list.len(),
            listing(*entries) == Some(list@),
            forall|k: int| 0 <= k < i ==> entry_is_readable_file(#[trigger] list@[k]),
        decreases list.len() - i,
    {
        if !entry_is_fine(list[i]) {
            assert(!entry_is_readable_file((listing(*entries)->0)[i as int]));
            return false;
        }
        i = i + 1;
    }
    true
}

/// The message that starts with `subject` and goes on with `rest`.
fn message_about(subject: &str, rest: &str) -> (message: String)
    ensures
        message@ == subject@ + rest@,
{
    String::from_str(subject).concat(rest)
}

/// Accepts or refuses the place to which output is written. `stdout` and a
/// path at which nothing exists are accepted; so is a regular file that can
/// be written.
pub fn validate_output_target(output: String, probe: &PathProbe) -> (verdict: Result<(), String>)
    ensures
        verdict_is(verdict, output_refusal(output@, *probe)),
{
    if same_text(output.as_str(), "stdout") {
        return Ok(());
    }
    if !probe.exists {
        return Ok(());
    }
    if !probe.is_file {
        return Err(message_about(output.as_str(), " is not a file"));
    }
    if probe.readonly {
        return Err(message_about("read-only file ", output.as_str()));
    }
    Ok(())
}

/// Accepts or refuses the file that holds a license: it has to exist, to be
/// no directory, and to be readable.
pub fn validate_license_file(license: String, probe: &PathProbe) -> (verdict: Result<(), String>)
    ensures
        verdict_is(verdict, license_refusal(license@, *probe)),
{
    if !probe.exists {
        return Err(message_about(license.as_str(), " does not exist"));
    }
    if probe.is_dir {
        return Err(message_about(license.as_str(), " is a directory"));
    }
    if let Ok(readable) = file_is_readable(probe.mode) {
        if readable {
            Ok(())
        } else {
            Err(message_about(license.as_str(), " cannot be read"))
        }
    } else {
        Err(message_about(license.as_str(), " cannot be read"))
    }
}

/// Accepts or refuses the place from which input is read: `stdin`, a
/// readable regular file, or a directory that holds nothing but readable
/// regular files.
pub fn validate_input_source(input: String, probe: &PathProbe) -> (verdict: Result<(), String>)
    ensures
        verdict_is(verdict, input_refusal(input@, *probe)),
{
    if same_text(input.as_str(), "stdin") {
        return Ok(());
    }
    if !probe.exists {
        let message = message_about("input path ", input.as_str()).concat(" does not exist");
        return Err(message);
    }
    if probe.is_dir {
        if is_flat_dir_of_readable_files(&probe.entries) {
            Ok(())
        } else {
            Err(message_about(input.as_str(), " isn't a flat directory of readable files"))
        }
    } else if probe.is_file {
        match file_is_readable(probe.mode) {
            Ok(readable) => {
                if readable {
                    Ok(())
                } else {
                    Err(message_about("file ", input.as_str()).concat(" is not readable"))
                }
            },
            Err(_) => Err(String::from_str("Other(\"unable to read file metadata\")")),
        }
    } else {
        Err(message_about(input.as_str(), " has an unknown filetype"))
    }
}

/// Accepts or refuses the options about the license. `license` is the path
/// of the license file, where one was given; `has_spdx` says whether its
/// SPDX identifier was given too.
pub fn validate_license_options(license: Option<&str>, has_spdx: bool) -> (verdict: Result<
    (),
    Failure,
>)
    ensures
        match license_options_refusal(
            match license {
                Some(path) => Some(path@),
                None => None,
            },
            has_spdx,
        ) {
            None => verdict is Ok,
            Some(message) => verdict matches Err(Failure::Other(m)) && m@ == message,
        },
{
    match license {
        Some(path) => {
            if has_spdx {
                Ok(())
            } else {
                Err(Failure::Other(message_about("missing the spdx identifier for ", path)))
            }
        },
        None => Ok(()),
    }
}

} // verus!
