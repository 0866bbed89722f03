use vstd::prelude::*;

use vstd::string::StringExecFns;

use crate::pval::{lemma_dict_get_at, lemma_dict_model_index, pv_get_str, pv_model, PSpec, PValue};
use crate::Errors;

verus! {

/// An AFC operation of the staging conversation, abstractly.
pub enum AfcOpModel {
    Mkdir(Seq<char>),
    Write(Seq<char>, Seq<u8>),
}

/// An AFC operation the staging issues.
pub enum AfcOp {
    Mkdir(String),
    Write(String, Vec<u8>),
}

/// The abstract operation an issued operation performs.
pub open spec fn op_model(op: AfcOp) -> AfcOpModel {
    match op {
        AfcOp::Mkdir(p) => AfcOpModel::Mkdir(p@),
        AfcOp::Write(p, b) => AfcOpModel::Write(p@, b@),
    }
}

/// The abstract operations of a sequence of issued operations.
pub open spec fn ops_model(ops: Seq<AfcOp>) -> Seq<AfcOpModel> {
    ops.map_values(|op: AfcOp| op_model(op))
}

/// Abstract picture of the AFC jail: which directories exist and what each
/// file holds.
pub struct AfcModel {
    pub dirs: Set<Seq<char>>,
    pub files: Map<Seq<char>, Seq<u8>>,
}

/// One operation on the abstract jail: a directory appears, or a file is
/// written whole.
pub open spec fn apply_op(m: AfcModel, op: AfcOpModel) -> AfcModel {
    match op {
        AfcOpModel::Mkdir(p) => AfcModel { dirs: m.dirs.insert(p), files: m.files },
        AfcOpModel::Write(p, b) => AfcModel { dirs: m.dirs, files: m.files.insert(p, b) },
    }
}

/// A run of operations on the abstract jail, in order.
pub open spec fn apply_ops(m: AfcModel, ops: Seq<AfcOpModel>) -> AfcModel
    decreases ops.len(),
{
    if ops.len() == 0 {
        m
    } else {
        apply_ops(apply_op(m, ops[0]), ops.drop_first())
    }
}

/// The staging area on the device.
pub open spec fn staging_dir_spec() -> Seq<char> {
    "./PublicStaging"@
}

/// The per-bundle directory under the staging area.
pub open spec fn bundle_dir_spec(bundle_id: Seq<char>) -> Seq<char> {
    "./PublicStaging/"@ + bundle_id
}

/// Where the archive is uploaded for a bundle.
pub open spec fn ipa_path_spec(bundle_id: Seq<char>) -> Seq<char> {
    "./PublicStaging/"@ + bundle_id + "/app.ipa"@
}

/// The staging area path.
pub fn staging_dir() -> (r: String)
    ensures
        r@ == staging_dir_spec(),
{
    String::from_str("./PublicStaging")
}

/// The per-bundle directory path.
pub fn bundle_dir(bundle_id: &str) -> (r: String)
    ensures
        r@ == bundle_dir_spec(bundle_id@),
{
    String::from_str("./PublicStaging/").concat(bundle_id)
}

/// The upload path of the archive for a bundle.
pub fn ipa_path(bundle_id: &str) -> (r: String)
    ensures
        r@ == ipa_path_spec(bundle_id@),
{
    String::from_str("./PublicStaging/").concat(bundle_id).concat("/app.ipa")
}

/// The operations one staging run issues: each missing directory is created,
/// never an existing one, and the archive is then written in full.
pub open spec fn stage_plan(
    bundle_id: Seq<char>,
    ipa: Seq<u8>,
    staging_exists: bool,
    bundle_dir_exists: bool,
) -> Seq<AfcOpModel> {
    (if staging_exists {
        Seq::<AfcOpModel>::empty()
    } else {
        seq![AfcOpModel::Mkdir(staging_dir_spec())]
    }) + (if bundle_dir_exists {
        Seq::<AfcOpModel>::empty()
    } else {
        seq![AfcOpModel::Mkdir(bundle_dir_spec(bundle_id))]
    }) + seq![AfcOpModel::Write(ipa_path_spec(bundle_id), ipa)]
}

/// Computes the staging run for a bundle, given which directories the device
/// reported as already present.
pub fn stage_ops(
    bundle_id: &str,
    ipa: Vec<u8>,
    staging_exists: bool,
    bundle_dir_exists: bool,
) -> (r: Vec<AfcOp>)
    ensures
        ops_model(r@) == stage_plan(bundle_id@, ipa@, staging_exists, bundle_dir_exists),
{
    let mut ops: Vec<AfcOp> = Vec::new();
    if !staging_exists {
        ops.push(AfcOp::Mkdir(staging_dir()));
    }
    if !bundle_dir_exists {
        ops.push(AfcOp::Mkdir(bundle_dir(bundle_id)));
    }
    ops.push(AfcOp::Write(ipa_path(bundle_id), ipa));
    proof {
        assert(ops_model(ops@) =~= stage_plan(bundle_id@, ipa@, staging_exists, bundle_dir_exists));
    }
    ops
}

/// The jail after one staging run against it.
pub open spec fn stage_once(m: AfcModel, bundle: Seq<char>, ipa: Seq<u8>) -> AfcModel {
    apply_ops(
        m,
        stage_plan(
            bundle,
            ipa,
            m.dirs.contains(staging_dir_spec()),
            m.dirs.contains(bundle_dir_spec(bundle)),
        ),
    )
}

/// Law: staging the same bundle twice overwrites the previous upload and
/// creates no duplicate directory — the second run issues no mkdir at all,
/// the directories are exactly those after the first run, and the archive
/// holds the second upload.
pub proof fn lemma_stage_twice(m: AfcModel, bundle: Seq<char>, b1: Seq<u8>, b2: Seq<u8>)
    ensures
        stage_plan(
            bundle,
            b2,
            stage_once(m, bundle, b1).dirs.contains(staging_dir_spec()),
            stage_once(m, bundle, b1).dirs.contains(bundle_dir_spec(bundle)),
        ) =~= seq![AfcOpModel::Write(ipa_path_spec(bundle), b2)],
        stage_once(stage_once(m, bundle, b1), bundle, b2).dirs =~= stage_once(
            m,
            bundle,
            b1,
        ).dirs,
        stage_once(stage_once(m, bundle, b1), bundle, b2).files =~= stage_once(
            m,
            bundle,
            b1,
        ).files.insert(ipa_path_spec(bundle), b2),
{
    reveal_with_fuel(apply_ops, 5);
    let e1 = m.dirs.contains(staging_dir_spec());
    let e2 = m.dirs.contains(bundle_dir_spec(bundle));
    let p1 = stage_plan(bundle, b1, e1, e2);
    if e1 && e2 {
        assert(p1 =~= seq![AfcOpModel::Write(ipa_path_spec(bundle), b1)]);
        assert(p1.drop_first() =~= Seq::<AfcOpModel>::empty());
    } else if e1 && !e2 {
        assert(p1 =~= seq![
            AfcOpModel::Mkdir(bundle_dir_spec(bundle)),
            AfcOpModel::Write(ipa_path_spec(bundle), b1),
        ]);
        assert(p1.drop_first() =~= seq![AfcOpModel::Write(ipa_path_spec(bundle), b1)]);
        assert(p1.drop_first().drop_first() =~= Seq::<AfcOpModel>::empty());
    } else if !e1 && e2 {
        assert(p1 =~= seq![
            AfcOpModel::Mkdir(staging_dir_spec()),
            AfcOpModel::Write(ipa_path_spec(bundle), b1),
        ]);
        assert(p1.drop_first() =~= seq![AfcOpModel::Write(ipa_path_spec(bundle), b1)]);
        assert(p1.drop_first().drop_first() =~= Seq::<AfcOpModel>::empty());
    } else {
        assert(p1 =~= seq![
            AfcOpModel::Mkdir(staging_dir_spec()),
            AfcOpModel::Mkdir(bundle_dir_spec(bundle)),
            AfcOpModel::Write(ipa_path_spec(bundle), b1),
        ]);
        assert(p1.drop_first() =~= seq![
            AfcOpModel::Mkdir(bundle_dir_spec(bundle)),
            AfcOpModel::Write(ipa_path_spec(bundle), b1),
        ]);
        assert(p1.drop_first().drop_first() =~= seq![
            AfcOpModel::Write(ipa_path_spec(bundle), b1),
        ]);
        assert(p1.drop_first().drop_first().drop_first() =~= Seq::<AfcOpModel>::empty());
    }
    let m1 = stage_once(m, bundle, b1);
    assert(m1.dirs.contains(staging_dir_spec()));
    assert(m1.dirs.contains(bundle_dir_spec(bundle)));
    let p2 = stage_plan(bundle, b2, true, true);
    assert(p2 =~= seq![AfcOpModel::Write(ipa_path_spec(bundle), b2)]);
    assert(p2.drop_first() =~= Seq::<AfcOpModel>::empty());
}

/// Stages an archive over AFC: the outcome of each stage of the conversation,
/// mapped to the error owed for the first failure. The conversation itself is
/// `stage_plan`; a run whose operations all succeed reports success.
pub fn yeet_app_afc(
    connection_ok: bool,
    device_found: bool,
    afc_ok: bool,
    transfer_ok: bool,
) -> (r: Result<(), Errors>)
    ensures
        !connection_ok ==> r == Result::<(), Errors>::Err(Errors::NoConnection),
        connection_ok && !device_found ==> r == Result::<(), Errors>::Err(Errors::NoDevice),
        connection_ok && device_found && !afc_ok ==> r == Result::<(), Errors>::Err(
            Errors::CreateAfc,
        ),
        connection_ok && device_found && afc_ok && !transfer_ok ==> r == Result::<(), Errors>::Err(
            Errors::RwAfc,
        ),
        connection_ok && device_found && afc_ok && transfer_ok ==> r == Result::<(), Errors>::Ok(
            (),
        ),
{
    if !connection_ok {
        Err(Errors::NoConnection)
    } else if !device_found {
        Err(Errors::NoDevice)
    } else if !afc_ok {
        Err(Errors::CreateAfc)
    } else if !transfer_ok {
        Err(Errors::RwAfc)
    } else {
        Ok(())
    }
}

/// The client options handed to the installation proxy: a dictionary of
/// exactly one entry, the bundle identifier under `CFBundleIdentifier`.
pub fn install_options(bundle_id: &str) -> (r: PValue)
    ensures
        pv_model(r) == PSpec::Dict(seq![("CFBundleIdentifier"@, PSpec::Str(bundle_id@))]),
        pv_get_str(r, "CFBundleIdentifier"@) == Some(bundle_id@),
{
    let mut entries: Vec<(String, PValue)> = Vec::new();
    entries.push(
        (String::from_str("CFBundleIdentifier"), PValue::Str(String::from_str(bundle_id))),
    );
    let r = PValue::Dict(entries);
    proof {
        lemma_dict_get_at(crate::pval::dict_entries(r), "CFBundleIdentifier"@, 0);
        lemma_dict_model_index(entries@);
        assert(crate::pval::dict_model(entries@) =~= seq![
            ("CFBundleIdentifier"@, PSpec::Str(bundle_id@)),
        ]);
    }
    r
}

/// Installs a staged archive: the outcome of each stage mapped to the error
/// owed for the first failure; an install failure carries the device's
/// message.
pub fn install_ipa(
    connection_ok: bool,
    device_found: bool,
    instproxy_ok: bool,
    install_error: Option<String>,
) -> (r: Result<(), Errors>)
    ensures
        !connection_ok ==> r == Result::<(), Errors>::Err(Errors::NoConnection),
        connection_ok && !device_found ==> r == Result::<(), Errors>::Err(Errors::NoDevice),
        connection_ok && device_found && !instproxy_ok ==> r == Result::<(), Errors>::Err(
            Errors::CreateInstproxy,
        ),
        connection_ok && device_found && instproxy_ok ==> match install_error {
            Some(m) => r == Result::<(), Errors>::Err(Errors::InstallApp(m)),
            None => r == Result::<(), Errors>::Ok(()),
        },
{
    if !connection_ok {
        Err(Errors::NoConnection)
    } else if !device_found {
        Err(Errors::NoDevice)
    } else if !instproxy_ok {
        Err(Errors::CreateInstproxy)
    } else {
        match install_error {
            Some(m) => Err(Errors::InstallApp(m)),
            None => Ok(()),
        }
    }
}

/// Uninstalls an app by bundle identifier: the outcome of each stage mapped to
/// the error owed for the first failure.
pub fn remove_app(
    connection_ok: bool,
    device_found: bool,
    instproxy_ok: bool,
    uninstall_ok: bool,
) -> (r: Result<(), Errors>)
    ensures
        !connection_ok ==> r == Result::<(), Errors>::Err(Errors::NoConnection),
        connection_ok && !device_found ==> r == Result::<(), Errors>::Err(Errors::NoDevice),
        connection_ok && device_found && !instproxy_ok ==> r == Result::<(), Errors>::Err(
            Errors::CreateInstproxy,
        ),
        connection_ok && device_found && instproxy_ok && !uninstall_ok ==> r == Result::<
            (),
            Errors,
        >::Err(Errors::UninstallApp),
        connection_ok && device_found && instproxy_ok && uninstall_ok ==> r == Result::<
            (),
            Errors,
        >::Ok(()),
{
    if !connection_ok {
        Err(Errors::NoConnection)
    } else if !device_found {
        Err(Errors::NoDevice)
    } else if !instproxy_ok {
        Err(Errors::CreateInstproxy)
    } else if !uninstall_ok {
        Err(Errors::UninstallApp)
    } else {
        Ok(())
    }
}

} // verus!
