use vstd::prelude::*;

use vstd::string::StringExecFns;

use crate::text::{before_first, dec_val, first_component, parse_u32_bounded, parses_to_u32,
    strip_plus};
use crate::Errors;

verus! {

/// Where the legacy index mapping iOS versions to image archives is fetched.
pub fn versions_dictionary_url() -> (r: String)
    ensures
        r@ == "https://raw.githubusercontent.com/jkcoxson/JitStreamer/master/versions.json"@,
{
    String::from_str("https://raw.githubusercontent.com/jkcoxson/JitStreamer/master/versions.json")
}

/// Where the personalized image is fetched.
pub fn personalized_image_url() -> (r: String)
    ensures
        r@
            == "https://github.com/doronz88/DeveloperDiskImage/raw/refs/heads/main/PersonalizedImages/Xcode_iOS_DDI_Personalized/Image.dmg"@,
{
    String::from_str(
        "https://github.com/doronz88/DeveloperDiskImage/raw/refs/heads/main/PersonalizedImages/Xcode_iOS_DDI_Personalized/Image.dmg",
    )
}

/// Where the personalized trust cache is fetched.
pub fn personalized_trustcache_url() -> (r: String)
    ensures
        r@
            == "https://github.com/doronz88/DeveloperDiskImage/raw/refs/heads/main/PersonalizedImages/Xcode_iOS_DDI_Personalized/Image.dmg.trustcache"@,
{
    String::from_str(
        "https://github.com/doronz88/DeveloperDiskImage/raw/refs/heads/main/PersonalizedImages/Xcode_iOS_DDI_Personalized/Image.dmg.trustcache",
    )
}

/// Where the personalized build manifest is fetched.
pub fn personalized_manifest_url() -> (r: String)
    ensures
        r@
            == "https://github.com/doronz88/DeveloperDiskImage/blob/main/PersonalizedImages/Xcode_iOS_DDI_Personalized/BuildManifest.plist"@,
{
    String::from_str(
        "https://github.com/doronz88/DeveloperDiskImage/blob/main/PersonalizedImages/Xcode_iOS_DDI_Personalized/BuildManifest.plist",
    )
}

/// The image directory kept under the caller's documents root.
pub fn dmg_dir_path(docs_path: &str) -> (r: String)
    ensures
        r@ == docs_path@ + "/DMG"@,
{
    String::from_str(docs_path).concat("/DMG")
}

/// The cached image of one iOS version in the legacy layout.
pub fn legacy_dmg_path(dmg_dir: &str, version: &str) -> (r: String)
    ensures
        r@ == dmg_dir@ + "/"@ + version@ + ".dmg"@,
{
    String::from_str(dmg_dir).concat("/").concat(version).concat(".dmg")
}

/// The signature beside a cached image; the path is the image's with
/// `.signature` appended.
pub fn legacy_sig_path(dmg_path: &str) -> (r: String)
    ensures
        r@ == dmg_path@ + ".signature"@,
{
    String::from_str(dmg_path).concat(".signature")
}

/// Where the downloaded archive is kept while it is unpacked.
pub fn zip_path(dmg_dir: &str) -> (r: String)
    ensures
        r@ == dmg_dir@ + "/dmg.zip"@,
{
    String::from_str(dmg_dir).concat("/dmg.zip")
}

/// The scratch directory the archive is unpacked into.
pub fn tmp_dir_path(dmg_dir: &str) -> (r: String)
    ensures
        r@ == dmg_dir@ + "/tmp"@,
{
    String::from_str(dmg_dir).concat("/tmp")
}

/// An unpacked directory that is macOS resource-fork noise, to be skipped
/// when the image directory is searched.
pub fn is_macosx_dir(name: &str) -> (r: bool)
    ensures
        r == crate::text::is_substring(name@, "__MACOSX"@),
{
    crate::text::contains_sub(name, "__MACOSX")
}

/// The image file inside the unpacked archive directory.
pub fn extracted_dmg_path(unpacked_dir: &str) -> (r: String)
    ensures
        r@ == unpacked_dir@ + "/DeveloperDiskImage.dmg"@,
{
    String::from_str(unpacked_dir).concat("/DeveloperDiskImage.dmg")
}

/// The signature file inside the unpacked archive directory.
pub fn extracted_sig_path(unpacked_dir: &str) -> (r: String)
    ensures
        r@ == unpacked_dir@ + "/DeveloperDiskImage.dmg.signature"@,
{
    String::from_str(unpacked_dir).concat("/DeveloperDiskImage.dmg.signature")
}

/// The three artifacts of the personalized layout, under the image directory.
pub fn personalized_paths(dmg_dir: &str) -> (r: (String, String, String))
    ensures
        r.0@ == dmg_dir@ + "/Image.dmg"@,
        r.1@ == dmg_dir@ + "/Image.dmg.trustcache"@,
        r.2@ == dmg_dir@ + "/BuildManifest.plist"@,
{
    (
        String::from_str(dmg_dir).concat("/Image.dmg"),
        String::from_str(dmg_dir).concat("/Image.dmg.trustcache"),
        String::from_str(dmg_dir).concat("/BuildManifest.plist"),
    )
}

/// Reads the major version out of a product version string: the digits before
/// the first dot, as the standard parser reads an eight-bit integer.
pub fn parse_major_version(s: &str) -> (r: Option<u8>)
    ensures
        match r {
            Some(v) => parses_to_u32(before_first(s@, '.'), 255) && v == dec_val(
                strip_plus(before_first(s@, '.')),
            ),
            None => !parses_to_u32(before_first(s@, '.'), 255),
        },
{
    let head = first_component(s, '.');
    match parse_u32_bounded(head, 255) {
        Some(v) => Some(v as u8),
        None => None,
    }
}

/// The version gate of the mounter and the launcher: seventeen and later use
/// the personalized image and the CoreDevice tunnel.
pub fn uses_personalized_path(major: u8) -> (r: bool)
    ensures
        r == (major >= 17),
{
    major >= 17
}

/// What serde_json finds for a version in the downloaded index: the string at
/// that key of the top-level JSON object, when the text parses and holds one.
/// The result depends on the two strings alone.
pub uninterp spec fn versions_lookup(index: Seq<char>, version: Seq<char>) -> Option<Seq<char>>;

/// Relies on serde_json::from_str, Value::get and Value::as_str: finds the
/// image URL recorded for this version in the JSON index.
#[verifier::external_body]
fn lookup_version_url(index: &str, version: &str) -> (r: Option<String>)
    ensures
        match r {
            Some(u) => versions_lookup(index@, version@) == Some(u@),
            None => versions_lookup(index@, version@) is None,
        },
{
    let parsed: serde_json::Value = match serde_json::from_str(index) {
        Ok(v) => v,
        Err(_) => return None,
    };
    parsed.get(version).and_then(|x| x.as_str()).map(|s| s.to_string())
}

/// Everything one legacy download does: fetch the archive, unpack it in the
/// scratch directory, and leave the image and signature under their
/// version-named paths.
#[derive(Debug, PartialEq, Eq)]
pub struct LegacyDownloadPlan {
    /// Archive to fetch, as the index names it for this version.
    pub url: String,
    /// Where the archive is written.
    pub zip_file: String,
    /// Where it is unpacked.
    pub unpack_dir: String,
    /// Final image path.
    pub dmg_file: String,
    /// Final signature path.
    pub sig_file: String,
}

/// Decides the legacy download. A version whose image is already cached needs
/// none; otherwise the index must name an archive for it, and the plan says
/// where the archive, the scratch directory and the renamed artifacts live.
/// A version the index does not know fails as a download failure.
pub fn plan_legacy_download(dmg_dir: &str, version: &str, dmg_cached: bool, index: &str) -> (r:
    Result<Option<LegacyDownloadPlan>, Errors>)
    ensures
        dmg_cached ==> r == Result::<Option<LegacyDownloadPlan>, Errors>::Ok(
            None::<LegacyDownloadPlan>,
        ),
        !dmg_cached ==> match r {
            Ok(Some(plan)) => {
                &&& versions_lookup(index@, version@) == Some(plan.url@)
                &&& plan.zip_file@ == dmg_dir@ + "/dmg.zip"@
                &&& plan.unpack_dir@ == dmg_dir@ + "/tmp"@
                &&& plan.dmg_file@ == dmg_dir@ + "/"@ + version@ + ".dmg"@
                &&& plan.sig_file@ == dmg_dir@ + "/"@ + version@ + ".dmg"@ + ".signature"@
            },
            Ok(None) => false,
            Err(e) => e == Errors::DownloadImage && versions_lookup(index@, version@) is None,
        },
{
    if dmg_cached {
        return Ok(None);
    }
    let url = match lookup_version_url(index, version) {
        Some(u) => u,
        None => {
            return Err(Errors::DownloadImage);
        },
    };
    let dmg_file = legacy_dmg_path(dmg_dir, version);
    let sig_file = legacy_sig_path(dmg_file.as_str());
    Ok(
        Some(
            LegacyDownloadPlan {
                url,
                zip_file: zip_path(dmg_dir),
                unpack_dir: tmp_dir_path(dmg_dir),
                dmg_file,
                sig_file,
            },
        ),
    )
}

/// What one pass of the auto-mounter observed.
#[derive(Debug, Clone, Copy, PartialEq, Eq, Structural)]
pub enum MountEvent {
    /// The muxer yielded no device handle.
    DeviceUnavailable,
    /// No lockdown session could be opened.
    LockdownFailed,
    /// `ProductVersion` was missing or did not parse.
    VersionUnreadable,
    /// The image-mounter service did not open.
    MounterUnavailable,
    /// The mounted-image lookup failed or came back unreadable.
    LookupFailed,
    /// A Developer image is already mounted.
    AlreadyMounted,
    /// The artifacts could not be downloaded or read.
    DownloadFailed,
    /// The image or its signature could not be uploaded.
    UploadFailed,
    /// The CoreDevice tunnel or its lockdown reads failed.
    TunnelFailed,
    /// The mount call failed.
    MountFailed,
    /// The mount call succeeded.
    Mounted,
}

/// Whether a pass observed a mounted Developer image.
pub open spec fn mounted_observed(ev: MountEvent) -> bool {
    ev is AlreadyMounted || ev is Mounted
}

/// What the mounter does after a pass.
#[derive(Debug, Clone, Copy, PartialEq, Eq, Structural)]
pub enum MountAction {
    /// Sleep five seconds and try again.
    Retry,
    /// The image is mounted: the worker is done.
    Finish,
}

/// The action one pass decides.
pub open spec fn mount_action_of(ev: MountEvent) -> MountAction {
    if mounted_observed(ev) {
        MountAction::Finish
    } else {
        MountAction::Retry
    }
}

/// The published mounter status.
pub struct MounterState {
    pub dmg_mounted: bool,
}

impl MounterState {
    /// Before the worker ran, nothing is mounted.
    pub fn new() -> (r: Self)
        ensures
            !r.dmg_mounted,
    {
        MounterState { dmg_mounted: false }
    }
}

/// One pass of the auto-mounter: the mounted flag is set exactly when a
/// Developer image was observed mounted — found already mounted, or mounted by
/// this pass — and only such a pass ends the loop.
pub fn mounter_step(state: &mut MounterState, ev: MountEvent) -> (a: MountAction)
    ensures
        final(state).dmg_mounted == (old(state).dmg_mounted || mounted_observed(ev)),
        a == mount_action_of(ev),
        a == MountAction::Finish <==> mounted_observed(ev),
{
    match ev {
        MountEvent::AlreadyMounted => {
            state.dmg_mounted = true;
            MountAction::Finish
        },
        MountEvent::Mounted => {
            state.dmg_mounted = true;
            MountAction::Finish
        },
        _ => MountAction::Retry,
    }
}

/// Law: the auto-mounter leaves its loop only on a pass that observed a
/// Developer image mounted — never on a download or upload failure alone.
/// In a run of passes, the first one that finishes observed the image
/// mounted, and every earlier pass retried.
pub proof fn lemma_mounter_exits_only_when_mounted(events: Seq<MountEvent>, k: int)
    requires
        0 <= k < events.len(),
        forall|i: int| 0 <= i < k ==> mount_action_of(#[trigger] events[i]) == MountAction::Retry,
        mount_action_of(events[k]) == MountAction::Finish,
    ensures
        mounted_observed(events[k]),
        !(events[k] is DownloadFailed),
        !(events[k] is UploadFailed),
        forall|i: int| 0 <= i < k ==> !mounted_observed(#[trigger] events[i]),
{
}

} // verus!
