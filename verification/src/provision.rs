use vstd::prelude::*;

use vstd::slice::{slice_subrange, slice_to_vec};
use vstd::string::StringExecFns;

use crate::codec::{decode_plist, plist_of};
use crate::pval::{get_str, lemma_ps_get_str_model, ps_get_str};
use crate::text::{contains_sub, is_substring, split_char, split_string};
use crate::Errors;

verus! {

/// `pat` occurs at position `i` of `data`.
pub open spec fn window_at(data: Seq<u8>, pat: Seq<u8>, i: int) -> bool {
    0 <= i && i + pat.len() <= data.len() && data.subrange(i, i + pat.len()) == pat
}

/// The first position where `pat` occurs at or after `i`.
pub open spec fn first_window_from(data: Seq<u8>, pat: Seq<u8>, i: int) -> Option<int>
    decreases data.len() - i,
{
    if pat.len() == 0 || i < 0 || i + pat.len() > data.len() {
        None
    } else if data.subrange(i, i + pat.len()) == pat {
        Some(i)
    } else {
        first_window_from(data, pat, i + 1)
    }
}

/// The first position where `pat` occurs in `data`.
pub open spec fn first_window(data: Seq<u8>, pat: Seq<u8>) -> Option<int> {
    first_window_from(data, pat, 0)
}

proof fn lemma_first_window_props(data: Seq<u8>, pat: Seq<u8>, i: int, k: int)
    requires
        first_window_from(data, pat, i) == Some(k),
    ensures
        window_at(data, pat, k),
        i <= k,
    decreases data.len() - i,
{
    if !(pat.len() == 0 || i < 0 || i + pat.len() > data.len()) && data.subrange(
        i,
        i + pat.len(),
    ) != pat {
        lemma_first_window_props(data, pat, i + 1, k);
    }
}

fn bytes_match_at(data: &[u8], pat: &[u8], i: usize) -> (r: bool)
    requires
        i + pat@.len() <= data@.len(),
    ensures
        r == (data@.subrange(i as int, i as int + pat@.len()) == pat@),
{
    let n = data.len();
    let m = pat.len();
    let mut j: usize = 0;
    while j < m
        invariant
            0 <= j <= m,
            m == pat@.len(),
            n == data@.len(),
            i + m <= n,
            forall|k: int| 0 <= k < j ==> data@[i + k] == pat@[k],
        decreases m - j,
    {
        if data[i + j] != pat[j] {
            proof {
                let sub = data@.subrange(i as int, i as int + pat@.len());
                assert(sub[j as int] == data@[i + j]);
            }
            return false;
        }
        j = j + 1;
    }
    proof {
        assert(data@.subrange(i as int, i as int + pat@.len()) =~= pat@);
    }
    true
}

/// Finds the first occurrence of a byte pattern, scanning fixed windows.
pub fn find_window(data: &[u8], pat: &[u8]) -> (r: Option<usize>)
    requires
        pat@.len() >= 1,
    ensures
        match r {
            Some(i) => first_window(data@, pat@) == Some(i as int),
            None => first_window(data@, pat@) is None,
        },
{
    let n = data.len();
    let m = pat.len();
    if m > n {
        proof {
            assert(first_window_from(data@, pat@, 0) is None);
        }
        return None;
    }
    let mut i: usize = 0;
    while i <= n - m
        invariant
            0 <= i <= n - m + 1,
            1 <= m <= n,
            n == data@.len(),
            m == pat@.len(),
            first_window(data@, pat@) == first_window_from(data@, pat@, i as int),
        decreases (n - m + 1) - i,
    {
        if bytes_match_at(data, pat, i) {
            return Some(i);
        }
        i = i + 1;
    }
    proof {
        assert(first_window_from(data@, pat@, i as int) is None);
    }
    None
}

/// The bytes of `<?xml version=`, the window that opens the embedded plist.
pub open spec fn xml_prefix_spec() -> Seq<u8> {
    "<?xml version="@.map_values(|c: char| c as u8)
}

/// The bytes of `</plist>`, the window that closes it.
pub open spec fn plist_suffix_spec() -> Seq<u8> {
    "</plist>"@.map_values(|c: char| c as u8)
}

fn ascii_bytes(s: &str) -> (r: Vec<u8>)
    requires
        s.is_ascii(),
    ensures
        r@ == s@.map_values(|c: char| c as u8),
{
    let b = s.as_bytes_vec();
    proof {
        vstd::string::is_ascii_spec_bytes(s);
        assert(b@ =~= s@.map_values(|c: char| c as u8));
    }
    b
}

/// The embedded XML property list of a profile blob: the slice from the first
/// `<?xml version=` to the end of the first `</plist>`; nothing when either
/// window is missing or they appear in the wrong order.
pub open spec fn embedded_plist_window(data: Seq<u8>) -> Option<Seq<u8>> {
    match (first_window(data, xml_prefix_spec()), first_window(data, plist_suffix_spec())) {
        (Some(p), Some(e)) => {
            if p <= e {
                Some(data.subrange(p, e + plist_suffix_spec().len()))
            } else {
                None
            }
        },
        _ => None,
    }
}

/// Cuts the embedded XML property list out of a profile blob.
pub fn extract_embedded_plist(data: &[u8]) -> (r: Option<Vec<u8>>)
    ensures
        match r {
            Some(x) => embedded_plist_window(data@) == Some(x@),
            None => embedded_plist_window(data@) is None,
        },
{
    proof {
        reveal_strlit("<?xml version=");
        reveal_strlit("</plist>");
        assert(("<?xml version=").is_ascii());
        assert(("</plist>").is_ascii());
        assert(xml_prefix_spec().len() == 14);
        assert(plist_suffix_spec().len() == 8);
    }
    let prefix_pat = ascii_bytes("<?xml version=");
    let suffix_pat = ascii_bytes("</plist>");
    let p = match find_window(data, prefix_pat.as_slice()) {
        Some(p) => p,
        None => {
            return None;
        },
    };
    let e = match find_window(data, suffix_pat.as_slice()) {
        Some(e) => e,
        None => {
            return None;
        },
    };
    if p > e {
        return None;
    }
    let n = data.len();
    proof {
        lemma_first_window_props(data@, plist_suffix_spec(), 0, e as int);
        assert(e + 8 <= n);
    }
    Some(slice_to_vec(slice_subrange(data, p, e + 8)))
}

/// A supplied id matches a profile name when one of its comma-separated
/// tokens is non-empty and occurs inside the name; an empty token never
/// matches anything.
pub open spec fn matches_ids(name: Seq<char>, ids: Seq<char>) -> bool {
    exists|k: int|
        0 <= k < split_char(ids, ',').len() && (#[trigger] split_char(ids, ',')[k]).len() > 0
            && is_substring(name, split_char(ids, ',')[k])
}

/// Whether any comma-separated id names this profile.
pub fn profile_matches(name: &str, ids: &str) -> (r: bool)
    ensures
        r == matches_ids(name@, ids@),
{
    let tokens = split_string(ids, ',');
    let n = tokens.len();
    proof {
        assert(crate::text::strs_model(tokens@).len() == n);
    }
    for k in 0..n
        invariant
            n == tokens@.len(),
            crate::text::strs_model(tokens@) == split_char(ids@, ','),
            forall|j: int|
                0 <= j < k ==> !((#[trigger] split_char(ids@, ',')[j]).len() > 0 && is_substring(
                    name@,
                    split_char(ids@, ',')[j],
                )),
    {
        proof {
            assert(split_char(ids@, ',')[k as int] == tokens@[k as int]@);
        }
        if tokens[k].as_str().unicode_len() > 0 {
            if contains_sub(name, tokens[k].as_str()) {
                return true;
            }
        } else {
            proof {
                assert(tokens@[k as int]@.len() == 0);
            }
        }
    }
    false
}

/// Law: an empty id string removes nothing — its only token is empty, and an
/// empty token matches no profile name.
pub proof fn lemma_empty_ids_match_nothing(name: Seq<char>)
    ensures
        !matches_ids(name, ""@),
{
    reveal_strlit("");
    assert(""@.len() == 0);
    assert(split_char(""@, ',') == seq![""@]);
}

/// What one installed profile shows: its display name and its identifier.
pub struct ProfileInfo {
    pub name: String,
    pub uuid: String,
}

/// The identifiers of the profiles whose names one of the ids matches, in
/// order.
pub open spec fn selected_uuids(infos: Seq<ProfileInfo>, ids: Seq<char>) -> Seq<Seq<char>>
    decreases infos.len(),
{
    if infos.len() == 0 {
        Seq::empty()
    } else {
        selected_uuids(infos.drop_last(), ids) + if matches_ids(infos.last().name@, ids) {
            seq![infos.last().uuid@]
        } else {
            Seq::empty()
        }
    }
}

/// Picks the profiles to remove: those whose name one of the comma-separated
/// ids occurs in.
pub fn select_profiles_to_remove(infos: &Vec<ProfileInfo>, ids: &str) -> (r: Vec<String>)
    ensures
        crate::text::strs_model(r@) == selected_uuids(infos@, ids@),
{
    let mut out: Vec<String> = Vec::new();
    let n = infos.len();
    proof {
        assert(infos@.take(0) =~= Seq::<ProfileInfo>::empty());
        assert(crate::text::strs_model(out@) =~= Seq::<Seq<char>>::empty());
    }
    for i in 0..n
        invariant
            n == infos@.len(),
            crate::text::strs_model(out@) == selected_uuids(infos@.take(i as int), ids@),
    {
        let matched = profile_matches(infos[i].name.as_str(), ids);
        if matched {
            out.push(infos[i].uuid.clone());
        }
        proof {
            assert(infos@.take(i + 1).drop_last() =~= infos@.take(i as int));
            assert(infos@.take(i + 1).last() == infos@[i as int]);
            if matched {
                assert(crate::text::strs_model(out@) =~= crate::text::strs_model(
                    out@.drop_last(),
                ) + seq![infos@[i as int].uuid@]);
            }
        }
    }
    proof {
        assert(infos@.take(n as int) =~= infos@);
    }
    out
}

/// Law: removing with an empty id string selects no profile at all.
pub proof fn lemma_empty_ids_removes_nothing(infos: Seq<ProfileInfo>)
    ensures
        selected_uuids(infos, ""@).len() == 0,
    decreases infos.len(),
{
    if infos.len() > 0 {
        lemma_empty_ids_removes_nothing(infos.drop_last());
        lemma_empty_ids_match_nothing(infos.last().name@);
    }
}

/// Reads the embedded plist of one profile blob and its `Name` and `UUID`
/// strings, when all of them are there.
/// The name and identifier a profile blob yields: the embedded plist is cut
/// out, parsed, and its `Name` and `UUID` strings read.
pub open spec fn profile_info_of(blob: Seq<u8>) -> Option<(Seq<char>, Seq<char>)> {
    match embedded_plist_window(blob) {
        Some(xml) => match plist_of(xml) {
            Some(m) => match (ps_get_str(m, "Name"@), ps_get_str(m, "UUID"@)) {
                (Some(name), Some(uuid)) => Some((name, uuid)),
                _ => None,
            },
            None => None,
        },
        None => None,
    }
}

fn parse_profile_blob(blob: &[u8]) -> (r: Option<ProfileInfo>)
    ensures
        match r {
            Some(info) => profile_info_of(blob@) == Some((info.name@, info.uuid@)),
            None => profile_info_of(blob@) is None,
        },
{
    let xml = match extract_embedded_plist(blob) {
        Some(x) => x,
        None => {
            return None;
        },
    };
    let value = match decode_plist(xml.as_slice()) {
        Some(v) => v,
        None => {
            return None;
        },
    };
    proof {
        lemma_ps_get_str_model(value, "Name"@);
        lemma_ps_get_str_model(value, "UUID"@);
    }
    let name = match get_str(&value, "Name") {
        Some(s) => s.clone(),
        None => {
            return None;
        },
    };
    let uuid = match get_str(&value, "UUID") {
        Some(s) => s.clone(),
        None => {
            return None;
        },
    };
    Some(ProfileInfo { name, uuid })
}

/// The identifiers the bulk removal picks out of the copied blobs, in order:
/// for each blob whose embedded plist and both strings could be read, its
/// identifier when one of the comma-separated ids occurs in its name.
pub open spec fn selected_from_blobs(blobs: Seq<Vec<u8>>, ids: Seq<char>) -> Seq<Seq<char>>
    decreases blobs.len(),
{
    if blobs.len() == 0 {
        Seq::empty()
    } else {
        selected_from_blobs(blobs.drop_last(), ids) + match profile_info_of(blobs.last()@) {
            Some(info) => if matches_ids(info.0, ids) {
                seq![info.1]
            } else {
                Seq::empty()
            },
            None => Seq::empty(),
        }
    }
}

/// Law: an empty id string selects nothing out of any run of blobs — its only
/// token is empty, and an empty token matches no name.
pub proof fn lemma_empty_ids_removes_nothing_from_blobs(blobs: Seq<Vec<u8>>)
    ensures
        selected_from_blobs(blobs, ""@).len() == 0,
    decreases blobs.len(),
{
    if blobs.len() > 0 {
        lemma_empty_ids_removes_nothing_from_blobs(blobs.drop_last());
        match profile_info_of(blobs.last()@) {
            Some(info) => {
                lemma_empty_ids_match_nothing(info.0);
            },
            None => {},
        }
    }
}

/// Works through the copied profile blobs and names exactly the identifiers
/// to remove: each blob's embedded plist is read, and its identifier is kept
/// when one of the comma-separated ids occurs in its name. An id string
/// without a usable token — the empty string among them — removes nothing.
pub fn remove_provisioning_profiles(raw_profiles: &Vec<Vec<u8>>, ids: &str) -> (r: Vec<String>)
    ensures
        crate::text::strs_model(r@) == selected_from_blobs(raw_profiles@, ids@),
{
    let mut out: Vec<String> = Vec::new();
    let n = raw_profiles.len();
    proof {
        assert(raw_profiles@.take(0) =~= Seq::<Vec<u8>>::empty());
        assert(crate::text::strs_model(out@) =~= Seq::<Seq<char>>::empty());
    }
    for i in 0..n
        invariant
            n == raw_profiles@.len(),
            crate::text::strs_model(out@) == selected_from_blobs(raw_profiles@.take(i as int), ids@),
    {
        let parsed = parse_profile_blob(raw_profiles[i].as_slice());
        proof {
            assert(raw_profiles@.take(i + 1).drop_last() =~= raw_profiles@.take(i as int));
            assert(raw_profiles@.take(i + 1).last() == raw_profiles@[i as int]);
        }
        if let Some(info) = parsed {
            if profile_matches(info.name.as_str(), ids) {
                out.push(info.uuid);
                proof {
                    assert(crate::text::strs_model(out@) =~= crate::text::strs_model(
                        out@.drop_last(),
                    ) + seq![out@.last()@]);
                }
            }
        }
    }
    proof {
        assert(raw_profiles@.take(n as int) =~= raw_profiles@);
    }
    out
}

/// One profile as the dump writes it: the identifier that names its files,
/// the raw blob, and the embedded XML plist cut out of it.
pub struct ProfileDump {
    pub uuid: String,
    pub blob: Vec<u8>,
    pub xml: Vec<u8>,
}

/// The identifier a dumped blob is filed under: the `UUID` string of its
/// embedded plist, when the window and the parse both succeed.
pub open spec fn dump_uuid_of(blob: Seq<u8>) -> Option<Seq<char>> {
    match embedded_plist_window(blob) {
        Some(xml) => match plist_of(xml) {
            Some(m) => ps_get_str(m, "UUID"@),
            None => None,
        },
        None => None,
    }
}

/// What the dump writes, in order: one entry for exactly each blob whose
/// identifier could be read, carrying that identifier and the blob.
pub open spec fn dump_plan_model(blobs: Seq<Vec<u8>>) -> Seq<(Seq<char>, Seq<u8>)>
    decreases blobs.len(),
{
    if blobs.len() == 0 {
        Seq::empty()
    } else {
        dump_plan_model(blobs.drop_last()) + match dump_uuid_of(blobs.last()@) {
            Some(uuid) => seq![(uuid, blobs.last()@)],
            None => Seq::empty(),
        }
    }
}

/// The identifier and blob of each prepared dump entry.
pub open spec fn dumps_model(entries: Seq<ProfileDump>) -> Seq<(Seq<char>, Seq<u8>)> {
    entries.map_values(|e: ProfileDump| (e.uuid@, e.blob@))
}

/// Prepares the dump of all copied profiles: one entry, in order, for exactly
/// each blob whose embedded plist and identifier could be read, carrying that
/// identifier, the blob, and the XML slice cut from that very blob.
pub fn dump_profiles_plan(raw_profiles: &Vec<Vec<u8>>) -> (r: Vec<ProfileDump>)
    ensures
        dumps_model(r@) == dump_plan_model(raw_profiles@),
        forall|i: int|
            0 <= i < r@.len() ==> embedded_plist_window(#[trigger] r@[i].blob@) == Some(r@[i].xml@),
{
    let mut out: Vec<ProfileDump> = Vec::new();
    let n = raw_profiles.len();
    proof {
        assert(raw_profiles@.take(0) =~= Seq::<Vec<u8>>::empty());
        assert(dumps_model(out@) =~= Seq::<(Seq<char>, Seq<u8>)>::empty());
    }
    for i in 0..n
        invariant
            n == raw_profiles@.len(),
            dumps_model(out@) == dump_plan_model(raw_profiles@.take(i as int)),
            forall|j: int|
                0 <= j < out@.len() ==> embedded_plist_window(#[trigger] out@[j].blob@) == Some(
                    out@[j].xml@,
                ),
    {
        let blob = raw_profiles[i].clone();
        proof {
            assert(raw_profiles@.take(i + 1).drop_last() =~= raw_profiles@.take(i as int));
            assert(raw_profiles@.take(i + 1).last() == raw_profiles@[i as int]);
        }
        if let Some(xml) = extract_embedded_plist(blob.as_slice()) {
            if let Some(value) = decode_plist(xml.as_slice()) {
                proof {
                    lemma_ps_get_str_model(value, "UUID"@);
                }
                if let Some(uuid) = get_str(&value, "UUID") {
                    let uuid = uuid.clone();
                    out.push(ProfileDump { uuid, blob, xml });
                    proof {
                        assert(dumps_model(out@) =~= dumps_model(out@.drop_last()) + seq![
                            (out@.last().uuid@, out@.last().blob@),
                        ]);
                    }
                }
            }
        }
    }
    proof {
        assert(raw_profiles@.take(n as int) =~= raw_profiles@);
    }
    out
}

/// The timestamped directory a dump writes into.
pub fn dump_dir(docs_path: &str, timestamp: &str) -> (r: String)
    ensures
        r@ == docs_path@ + "/ProfileDump/"@ + timestamp@,
{
    String::from_str(docs_path).concat("/ProfileDump/").concat(timestamp)
}

/// Where one dumped profile's raw blob goes.
pub fn dump_blob_path(dir: &str, uuid: &str) -> (r: String)
    ensures
        r@ == dir@ + "/"@ + uuid@ + ".mobileprovision"@,
{
    String::from_str(dir).concat("/").concat(uuid).concat(".mobileprovision")
}

/// Where one dumped profile's extracted plist goes.
pub fn dump_plist_path(dir: &str, uuid: &str) -> (r: String)
    ensures
        r@ == dir@ + "/"@ + uuid@ + ".plist"@,
{
    String::from_str(dir).concat("/").concat(uuid).concat(".plist")
}

/// Installs a profile: the outcome of each stage of the conversation mapped
/// to the error owed for the first failure.
pub fn install_provisioning_profile(
    connection_ok: bool,
    device_found: bool,
    misagent_ok: bool,
    install_ok: bool,
) -> (r: Result<(), Errors>)
    ensures
        !connection_ok ==> r == Result::<(), Errors>::Err(Errors::NoConnection),
        connection_ok && !device_found ==> r == Result::<(), Errors>::Err(Errors::NoDevice),
        connection_ok && device_found && !misagent_ok ==> r == Result::<(), Errors>::Err(
            Errors::CreateMisagent,
        ),
        connection_ok && device_found && misagent_ok && !install_ok ==> r == Result::<
            (),
            Errors,
        >::Err(Errors::ProfileInstall),
        connection_ok && device_found && misagent_ok && install_ok ==> r == Result::<
            (),
            Errors,
        >::Ok(()),
{
    if !connection_ok {
        Err(Errors::NoConnection)
    } else if !device_found {
        Err(Errors::NoDevice)
    } else if !misagent_ok {
        Err(Errors::CreateMisagent)
    } else if !install_ok {
        Err(Errors::ProfileInstall)
    } else {
        Ok(())
    }
}

/// Removes a profile by identifier: the outcome of each stage of the
/// conversation mapped to the error owed for the first failure.
pub fn remove_provisioning_profile(
    connection_ok: bool,
    device_found: bool,
    misagent_ok: bool,
    remove_ok: bool,
) -> (r: Result<(), Errors>)
    ensures
        !connection_ok ==> r == Result::<(), Errors>::Err(Errors::NoConnection),
        connection_ok && !device_found ==> r == Result::<(), Errors>::Err(Errors::NoDevice),
        connection_ok && device_found && !misagent_ok ==> r == Result::<(), Errors>::Err(
            Errors::CreateMisagent,
        ),
        connection_ok && device_found && misagent_ok && !remove_ok ==> r == Result::<
            (),
            Errors,
        >::Err(Errors::ProfileRemove),
        connection_ok && device_found && misagent_ok && remove_ok ==> r == Result::<
            (),
            Errors,
        >::Ok(()),
{
    if !connection_ok {
        Err(Errors::NoConnection)
    } else if !device_found {
        Err(Errors::NoDevice)
    } else if !misagent_ok {
        Err(Errors::CreateMisagent)
    } else if !remove_ok {
        Err(Errors::ProfileRemove)
    } else {
        Ok(())
    }
}

/// Dumps all profiles: the outcome of each stage mapped to the error owed for
/// the first failure; a copy that cannot be fetched or read reports the
/// profile-removal kind, as the taxonomy assigns it.
pub fn dump_profiles(
    connection_ok: bool,
    device_found: bool,
    misagent_ok: bool,
    copy_ok: bool,
) -> (r: Result<(), Errors>)
    ensures
        !connection_ok ==> r == Result::<(), Errors>::Err(Errors::NoConnection),
        connection_ok && !device_found ==> r == Result::<(), Errors>::Err(Errors::NoDevice),
        connection_ok && device_found && !misagent_ok ==> r == Result::<(), Errors>::Err(
            Errors::CreateMisagent,
        ),
        connection_ok && device_found && misagent_ok && !copy_ok ==> r == Result::<
            (),
            Errors,
        >::Err(Errors::ProfileRemove),
        connection_ok && device_found && misagent_ok && copy_ok ==> r == Result::<(), Errors>::Ok(
            (),
        ),
{
    if !connection_ok {
        Err(Errors::NoConnection)
    } else if !device_found {
        Err(Errors::NoDevice)
    } else if !misagent_ok {
        Err(Errors::CreateMisagent)
    } else if !copy_ok {
        Err(Errors::ProfileRemove)
    } else {
        Ok(())
    }
}

} // verus!
