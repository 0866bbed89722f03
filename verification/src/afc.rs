use vstd::prelude::*;

use vstd::string::StringExecFns;

use crate::pval::str_eq;
use crate::text::{dec_val, parse_u32_bounded, parses_to_u32, strip_plus};
use crate::Errors;

verus! {

/// One node of the device-filesystem listing: its path, its parent directory,
/// whether it is a file, its size when the device reported one, and the
/// entries below it up to the walk's depth bound.
pub struct RustDirectoryEntry {
    pub path: String,
    pub parent: String,
    pub is_file: bool,
    pub size: Option<u32>,
    pub children: Vec<RustDirectoryEntry>,
}

impl RustDirectoryEntry {
    /// The entry's path.
    pub fn path(&self) -> (r: String)
        ensures
            r@ == self.path@,
    {
        self.path.clone()
    }

    /// The directory the entry was found in.
    pub fn parent(&self) -> (r: String)
        ensures
            r@ == self.parent@,
    {
        self.parent.clone()
    }

    /// Whether the entry is a file rather than a directory.
    pub fn is_file(&self) -> (r: bool)
        ensures
            r == self.is_file,
    {
        self.is_file
    }

    /// The size the device reported, if any.
    pub fn size(&self) -> (r: Option<u32>)
        ensures
            r == self.size,
    {
        self.size
    }

    /// The entries below this one.
    pub fn children(&self) -> (r: &Vec<RustDirectoryEntry>)
        ensures
            r == &self.children,
    {
        &self.children
    }
}

/// The value stored under `key` in a stat reply, first match.
pub open spec fn kv_get(entries: Seq<(String, String)>, key: Seq<char>) -> Option<Seq<char>>
    decreases entries.len(),
{
    if entries.len() == 0 {
        None
    } else if entries[0].0@ == key {
        Some(entries[0].1@)
    } else {
        kv_get(entries.drop_first(), key)
    }
}

proof fn lemma_kv_get_skip(entries: Seq<(String, String)>, key: Seq<char>, i: int)
    requires
        0 <= i < entries.len(),
        entries[i].0@ != key,
    ensures
        kv_get(entries.skip(i), key) == kv_get(entries.skip(i + 1), key),
{
    assert(entries.skip(i).len() > 0);
    assert(entries.skip(i)[0] == entries[i]);
    assert(entries.skip(i).drop_first() =~= entries.skip(i + 1));
}

/// Reads a field of a stat reply.
pub fn info_get<'a>(info: &'a Vec<(String, String)>, key: &str) -> (r: Option<&'a String>)
    ensures
        match r {
            Some(v) => kv_get(info@, key@) == Some(v@),
            None => kv_get(info@, key@) is None,
        },
{
    proof {
        assert(info@.skip(0) =~= info@);
    }
    let n = info.len();
    for i in 0..n
        invariant
            n == info@.len(),
            kv_get(info@, key@) == kv_get(info@.skip(i as int), key@),
    {
        if str_eq(info[i].0.as_str(), key) {
            proof {
                assert(info@.skip(i as int)[0] == info@[i as int]);
            }
            return Some(&info[i].1);
        }
        proof {
            lemma_kv_get_skip(info@, key@, i as int);
        }
    }
    proof {
        assert(info@.skip(n as int) =~= Seq::<(String, String)>::empty());
    }
    None
}

/// What a parsed `st_size` field denotes, when the device sent one that reads
/// as a number.
pub open spec fn stat_size(info: Seq<(String, String)>) -> Option<u32> {
    match kv_get(info, "st_size"@) {
        Some(s) => if parses_to_u32(s, u32::MAX as nat) {
            Some(dec_val(strip_plus(s)) as u32)
        } else {
            None
        },
        None => None,
    }
}

/// Whether a stat reply names a directory.
pub open spec fn stat_is_dir(info: Seq<(String, String)>) -> bool {
    kv_get(info, "st_ifmt"@) == Some("S_IFDIR"@)
}

/// Reads a stat reply: whether the node is a directory, and its size when the
/// device sent a numeric one.
pub fn interpret_file_info(info: &Vec<(String, String)>) -> (r: (bool, Option<u32>))
    ensures
        r.0 == stat_is_dir(info@),
        r.1 == stat_size(info@),
{
    let is_dir = match info_get(info, "st_ifmt") {
        Some(v) => str_eq(v.as_str(), "S_IFDIR"),
        None => false,
    };
    let size = match info_get(info, "st_size") {
        Some(v) => parse_u32_bounded(v.as_str(), u32::MAX),
        None => None,
    };
    (is_dir, size)
}

/// Manager of the device filesystem exposed over AFC.
pub struct AfcFileManager;

impl AfcFileManager {
    /// Removes a path and everything under it: the outcome of each stage of
    /// the conversation mapped to the error owed for the first failure.
    pub fn remove(
        connection_ok: bool,
        device_found: bool,
        afc_ok: bool,
        remove_ok: bool,
    ) -> (r: Result<(), Errors>)
        ensures
            !connection_ok ==> r == Result::<(), Errors>::Err(Errors::NoConnection),
            connection_ok && !device_found ==> r == Result::<(), Errors>::Err(Errors::NoDevice),
            connection_ok && device_found && !afc_ok ==> r == Result::<(), Errors>::Err(
                Errors::CreateAfc,
            ),
            connection_ok && device_found && afc_ok && !remove_ok ==> r == Result::<
                (),
                Errors,
            >::Err(Errors::RwAfc),
            connection_ok && device_found && afc_ok && remove_ok ==> r == Result::<
                (),
                Errors,
            >::Ok(()),
    {
        if !connection_ok {
            Err(Errors::NoConnection)
        } else if !device_found {
            Err(Errors::NoDevice)
        } else if !afc_ok {
            Err(Errors::CreateAfc)
        } else if !remove_ok {
            Err(Errors::RwAfc)
        } else {
            Ok(())
        }
    }

    /// Creates a directory on the device: the outcome of each stage mapped to
    /// the error owed for the first failure.
    pub fn create_directory(
        connection_ok: bool,
        device_found: bool,
        afc_ok: bool,
        mkdir_ok: bool,
    ) -> (r: Result<(), Errors>)
        ensures
            !connection_ok ==> r == Result::<(), Errors>::Err(Errors::NoConnection),
            connection_ok && !device_found ==> r == Result::<(), Errors>::Err(Errors::NoDevice),
            connection_ok && device_found && !afc_ok ==> r == Result::<(), Errors>::Err(
                Errors::CreateAfc,
            ),
            connection_ok && device_found && afc_ok && !mkdir_ok ==> r == Result::<
                (),
                Errors,
            >::Err(Errors::RwAfc),
            connection_ok && device_found && afc_ok && mkdir_ok ==> r == Result::<
                (),
                Errors,
            >::Ok(()),
    {
        if !connection_ok {
            Err(Errors::NoConnection)
        } else if !device_found {
            Err(Errors::NoDevice)
        } else if !afc_ok {
            Err(Errors::CreateAfc)
        } else if !mkdir_ok {
            Err(Errors::RwAfc)
        } else {
            Ok(())
        }
    }

    /// Writes a file on the device: opening, writing and closing must all
    /// succeed, and the first failure names the error.
    pub fn write_file(
        connection_ok: bool,
        device_found: bool,
        afc_ok: bool,
        open_ok: bool,
        write_ok: bool,
        close_ok: bool,
    ) -> (r: Result<(), Errors>)
        ensures
            !connection_ok ==> r == Result::<(), Errors>::Err(Errors::NoConnection),
            connection_ok && !device_found ==> r == Result::<(), Errors>::Err(Errors::NoDevice),
            connection_ok && device_found && !afc_ok ==> r == Result::<(), Errors>::Err(
                Errors::CreateAfc,
            ),
            connection_ok && device_found && afc_ok ==> if open_ok && write_ok && close_ok {
                r == Result::<(), Errors>::Ok(())
            } else {
                r == Result::<(), Errors>::Err(Errors::RwAfc)
            },
    {
        if !connection_ok {
            Err(Errors::NoConnection)
        } else if !device_found {
            Err(Errors::NoDevice)
        } else if !afc_ok {
            Err(Errors::CreateAfc)
        } else if !open_ok || !write_ok || !close_ok {
            Err(Errors::RwAfc)
        } else {
            Ok(())
        }
    }

    /// Reads the size field out of a stat reply: a reply without a numeric
    /// `st_size` cannot be used and reports a read failure.
    pub fn file_size(info: &Vec<(String, String)>) -> (r: Result<u32, Errors>)
        ensures
            match r {
                Ok(v) => stat_size(info@) == Some(v),
                Err(e) => e == Errors::RwAfc && stat_size(info@) is None,
            },
    {
        let size = match info_get(info, "st_size") {
            Some(v) => parse_u32_bounded(v.as_str(), u32::MAX),
            None => None,
        };
        match size {
            Some(v) => Ok(v),
            None => Err(Errors::RwAfc),
        }
    }
}

/// The listing skips the current and parent pseudo-entries.
pub fn is_dot_entry(name: &str) -> (r: bool)
    ensures
        r == (name@ == "."@ || name@ == ".."@),
{
    str_eq(name, ".") || str_eq(name, "..")
}

/// The path of a listed node: the directory it was found in, its name, and a
/// trailing slash when it is itself a directory.
pub fn entry_path(directory_path: &str, name: &str, is_directory: bool) -> (r: String)
    ensures
        is_directory ==> r@ == directory_path@ + name@ + "/"@,
        !is_directory ==> r@ == directory_path@ + name@,
{
    let joined = String::from_str(directory_path).concat(name);
    if is_directory {
        joined.concat("/")
    } else {
        joined
    }
}

/// The walk descends into a directory only above the depth bound: three
/// levels, so listing everything cannot take arbitrarily long.
pub fn should_descend(is_directory: bool, depth: u8) -> (r: bool)
    ensures
        r == (is_directory && depth < 3),
{
    is_directory && depth < 3
}

/// Builds one node of the listing from what the walk observed.
pub fn make_entry(
    directory_path: &str,
    name: &str,
    is_directory: bool,
    size: Option<u32>,
    children: Vec<RustDirectoryEntry>,
) -> (r: RustDirectoryEntry)
    ensures
        is_directory ==> r.path@ == directory_path@ + name@ + "/"@,
        !is_directory ==> r.path@ == directory_path@ + name@,
        r.parent@ == directory_path@,
        r.is_file == !is_directory,
        r.size == size,
        r.children == children,
{
    RustDirectoryEntry {
        path: entry_path(directory_path, name, is_directory),
        parent: String::from_str(directory_path),
        is_file: !is_directory,
        size,
        children,
    }
}

} // verus!
