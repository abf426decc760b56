//! The provider's data model, the requests made to it, and the decisions
//! taken on its answers: catalog order, region choice, and launch results.
use vstd::prelude::*;
use vstd::string::*;
use crate::error::LambdaError;
use crate::text::{lemma_text_le_total, lemma_text_le_trans, text_eq, text_le, text_leq, views};

verus! {

/// Base URL of the provider's REST API.
pub const API_BASE_URL: &'static str = "https://cloud.lambdalabs.com/api/v1";

/// Overall timeout of a provider request, in seconds.
pub const DEFAULT_TIMEOUT_SECS: u64 = 30;

/// Connect timeout of a provider request, in seconds.
pub const CONNECT_TIMEOUT_SECS: u64 = 10;

/// The envelope that wraps every successful answer.
#[derive(Debug)]
pub struct ApiResponse<T> {
    pub data: T,
}

/// The envelope of an error answer.
#[derive(Debug)]
pub struct ApiErrorResponse {
    pub error: ApiErrorDetail,
}

/// The message of an error answer.
#[derive(Debug)]
pub struct ApiErrorDetail {
    pub message: String,
}

/// An instance as the provider reports it; every field may still be missing
/// while it is provisioned.
#[derive(Debug, Clone)]
pub struct Instance {
    pub id: Option<String>,
    pub name: Option<String>,
    pub status: Option<String>,
    pub ip: Option<String>,
    pub ssh_key_names: Option<Vec<String>>,
    pub instance_type: Option<InstanceTypeInfo>,
    pub region: Option<RegionInfo>,
}

/// The instance type named on an instance.
#[derive(Debug, Clone)]
pub struct InstanceTypeInfo {
    pub name: Option<String>,
}

/// The region named on an instance.
#[derive(Debug, Clone)]
pub struct RegionInfo {
    pub name: Option<String>,
}

/// Persistent storage that can be attached to instances of its region.
#[derive(Debug, Clone)]
pub struct Filesystem {
    pub id: String,
    pub name: String,
    pub mount_point: String,
    pub created: String,
    pub region: FilesystemRegion,
    pub is_in_use: bool,
    pub bytes_used: u64,
}

/// The region of a filesystem.
#[derive(Debug, Clone)]
pub struct FilesystemRegion {
    pub name: String,
    pub description: String,
}

/// The answer to a launch request.
#[derive(Debug)]
pub struct LaunchResponse {
    pub instance_ids: Vec<String>,
}

/// One catalog entry: an instance type, its specs and price, and the regions
/// that currently have capacity for it.
#[derive(Debug, Clone)]
pub struct InstanceTypeData {
    pub name: String,
    pub description: String,
    pub price_cents_per_hour: i32,
    pub vcpus: u32,
    pub memory_gib: u32,
    pub storage_gib: u32,
    pub regions_available: Vec<String>,
}

/// What the provider publishes for one instance type.
#[derive(Debug, Clone)]
pub struct InstanceTypeResponse {
    pub instance_type: InstanceType,
    pub regions_with_capacity_available: Vec<Region>,
}

/// Description and price of an instance type.
#[derive(Debug, Clone)]
pub struct InstanceType {
    pub description: String,
    pub price_cents_per_hour: i32,
    pub specs: InstanceSpecs,
}

/// Machine specs of an instance type.
#[derive(Debug, Clone)]
pub struct InstanceSpecs {
    pub vcpus: u32,
    pub memory_gib: u32,
    pub storage_gib: u32,
}

/// A provider zone.
#[derive(Debug, Clone)]
pub struct Region {
    pub name: String,
    pub description: String,
}

/// The instance that a launch created, and where.
#[derive(Debug, Clone)]
pub struct LaunchResult {
    pub instance_id: String,
    pub region: String,
}

/// The names of a list of regions.
pub open spec fn region_names(rs: Seq<Region>) -> Seq<Seq<char>> {
    rs.map_values(|r: Region| r.name@)
}

/// The full URL of an API path.
pub open spec fn api_url_spec(path: Seq<char>) -> Seq<char> {
    API_BASE_URL@ + path
}

/// The full URL of `path` under the API base.
pub fn api_url(path: &str) -> (r: String)
    ensures
        r@ == api_url_spec(path@),
{
    let mut s = String::from_str(API_BASE_URL);
    s.append(path);
    s
}

/// The URL of one instance.
pub fn instance_url(instance_id: &str) -> (r: String)
    ensures
        r@ == api_url_spec("/instances/"@ + instance_id@),
{
    let mut s = api_url("/instances/");
    s.append(instance_id);
    proof {
        assert(s@ =~= api_url_spec("/instances/"@ + instance_id@));
    }
    s
}

/// The URL of one filesystem.
pub fn file_system_url(filesystem_id: &str) -> (r: String)
    ensures
        r@ == api_url_spec("/file-systems/"@ + filesystem_id@),
{
    let mut s = api_url("/file-systems/");
    s.append(filesystem_id);
    proof {
        assert(s@ =~= api_url_spec("/file-systems/"@ + filesystem_id@));
    }
    s
}

/// The authorization header value for `api_key`.
pub fn bearer(api_key: &str) -> (r: String)
    ensures
        r@ == "Bearer "@ + api_key@,
{
    let mut s = String::from_str("Bearer ");
    s.append(api_key);
    s
}

/// The message of an error answer, or a fallback when it had none that
/// could be read.
pub open spec fn error_message_spec(body: Option<ApiErrorResponse>) -> Seq<char> {
    match body {
        Some(b) => b.error.message@,
        None => "Unknown error"@,
    }
}

/// The provider's message from an error answer, if it could be read.
pub fn error_message(body: Option<ApiErrorResponse>) -> (r: String)
    ensures
        r@ == error_message_spec(body),
{
    match body {
        Some(b) => b.error.message,
        None => String::from_str("Unknown error"),
    }
}

/// The provider operations.
#[derive(Debug, Clone, Copy, PartialEq, Eq, Structural)]
pub enum Operation {
    ValidateKey,
    ListInstanceTypes,
    GetInstanceType,
    Launch,
    Terminate,
    ListRunning,
    GetInstance,
    ListFilesystems,
    CreateFilesystem,
    DeleteFilesystem,
}

/// How a failure of an operation is introduced.
pub open spec fn failure_text(op: Operation) -> Seq<char> {
    match op {
        Operation::ValidateKey => "API key validation failed"@,
        Operation::ListInstanceTypes => "Failed to list instances"@,
        Operation::GetInstanceType => "Failed to get instance types"@,
        Operation::Launch => "Failed to launch instance"@,
        Operation::Terminate => "Failed to terminate instance"@,
        Operation::ListRunning => "Failed to list running instances"@,
        Operation::GetInstance => "Failed to get instance details"@,
        Operation::ListFilesystems => "Failed to list filesystems"@,
        Operation::CreateFilesystem => "Failed to create filesystem"@,
        Operation::DeleteFilesystem => "Failed to delete filesystem"@,
    }
}

impl Operation {
    /// How a failure of this operation is introduced.
    pub fn failure_text(&self) -> (r: &'static str)
        ensures
            r@ == failure_text(*self),
    {
        match self {
            Operation::ValidateKey => "API key validation failed",
            Operation::ListInstanceTypes => "Failed to list instances",
            Operation::GetInstanceType => "Failed to get instance types",
            Operation::Launch => "Failed to launch instance",
            Operation::Terminate => "Failed to terminate instance",
            Operation::ListRunning => "Failed to list running instances",
            Operation::GetInstance => "Failed to get instance details",
            Operation::ListFilesystems => "Failed to list filesystems",
            Operation::CreateFilesystem => "Failed to create filesystem",
            Operation::DeleteFilesystem => "Failed to delete filesystem",
        }
    }
}

/// The error for a non-success answer to `op`: the operation, the HTTP
/// status (as its text), and the provider's message or the fallback.
pub fn rejection(op: Operation, status: &str, body: Option<ApiErrorResponse>) -> (r: LambdaError)
    ensures
        r matches LambdaError::ProviderRejected(m) && m@ == failure_text(op) + " ("@ + status@
            + "): "@ + error_message_spec(body),
{
    let mut s = String::from_str(op.failure_text());
    s.append(" (");
    s.append(status);
    s.append("): ");
    let msg = error_message(body);
    s.append(msg.as_str());
    LambdaError::ProviderRejected(s)
}

/// `d` is the catalog entry for the type `name` that `resp` describes.
pub open spec fn is_entry_of(name: String, resp: InstanceTypeResponse, d: InstanceTypeData) -> bool {
    &&& d.name == name
    &&& d.description == resp.instance_type.description
    &&& d.price_cents_per_hour == resp.instance_type.price_cents_per_hour
    &&& d.vcpus == resp.instance_type.specs.vcpus
    &&& d.memory_gib == resp.instance_type.specs.memory_gib
    &&& d.storage_gib == resp.instance_type.specs.storage_gib
    &&& views(d.regions_available@) == region_names(resp.regions_with_capacity_available@)
}

/// The entries are in ascending order of name.
pub open spec fn sorted_by_name(s: Seq<InstanceTypeData>) -> bool {
    forall|i: int, j: int| 0 <= i < j < s.len() ==> text_le(s[i].name@, s[j].name@)
}

/// The names of the regions that have capacity, in the provider's order.
pub fn capacity_regions(resp: &InstanceTypeResponse) -> (r: Vec<String>)
    ensures
        views(r@) == region_names(resp.regions_with_capacity_available@),
{
    let rs = &resp.regions_with_capacity_available;
    let mut out: Vec<String> = Vec::new();
    let mut i: usize = 0;
    while i < rs.len()
        invariant
            i <= rs@.len(),
            out@.len() == i,
            views(out@) == region_names(rs@).subrange(0, i as int),
        decreases rs@.len() - i,
    {
        let name = String::from_str(rs[i].name.as_str());
        let ghost prev = out@;
        out.push(name);
        assert(out@ == prev.push(name));
        assert(region_names(rs@)[i as int] == rs@[i as int].name@);
        assert(views(out@)[i as int] == name@);
        assert(views(out@) =~= region_names(rs@).subrange(0, i as int + 1));
        i = i + 1;
    }
    assert(region_names(rs@).subrange(0, rs@.len() as int) =~= region_names(rs@));
    out
}

/// The catalog entry for the type `name` that `resp` describes.
pub fn catalog_entry(name: String, resp: InstanceTypeResponse) -> (r: InstanceTypeData)
    ensures
        is_entry_of(name, resp, r),
{
    let regions_available = capacity_regions(&resp);
    InstanceTypeData {
        name,
        description: resp.instance_type.description,
        price_cents_per_hour: resp.instance_type.price_cents_per_hour,
        vcpus: resp.instance_type.specs.vcpus,
        memory_gib: resp.instance_type.specs.memory_gib,
        storage_gib: resp.instance_type.specs.storage_gib,
        regions_available,
    }
}

/// Puts catalog entries in ascending order of name, keeping every entry.
pub fn sort_by_name(entries: Vec<InstanceTypeData>) -> (r: Vec<InstanceTypeData>)
    ensures
        sorted_by_name(r@),
        r@.to_multiset() == entries@.to_multiset(),
{
    broadcast use vstd::seq_lib::group_to_multiset_ensures;
    broadcast use vstd::multiset::group_multiset_axioms;

    let mut input = entries;
    let mut out: Vec<InstanceTypeData> = Vec::new();
    assert(input@.to_multiset().add(out@.to_multiset()) =~= entries@.to_multiset());
    while input.len() > 0
        invariant
            sorted_by_name(out@),
            input@.to_multiset().add(out@.to_multiset()) == entries@.to_multiset(),
        decreases input@.len(),
    {
        let ghost before = input@;
        let x = input.pop().unwrap();
        assert(before =~= input@.push(x));
        let mut p: usize = out.len();
        while p > 0 && !text_leq(out[p - 1].name.as_str(), x.name.as_str())
            invariant
                p <= out@.len(),
                forall|k: int| p <= k < out@.len() ==> !text_le(#[trigger] out@[k].name@, x.name@),
            decreases p,
        {
            p = p - 1;
        }
        let ghost old_out = out@;
        proof {
            assert forall|k: int| 0 <= k < p implies text_le(#[trigger] old_out[k].name@, x.name@) by {
                if k < p - 1 {
                    lemma_text_le_trans(old_out[k].name@, old_out[p - 1].name@, x.name@);
                }
            }
            assert forall|k: int| p <= k < old_out.len() implies text_le(x.name@, #[trigger] old_out[k].name@) by {
                lemma_text_le_total(old_out[k].name@, x.name@);
            }
        }
        out.insert(p, x);
        proof {
            let n = out@;
            assert(n =~= old_out.insert(p as int, x));
            vstd::seq_lib::to_multiset_build(input@, x);
            vstd::seq_lib::to_multiset_insert(old_out, p as int, x);
            assert forall|i: int, j: int| 0 <= i < j < n.len() implies text_le(n[i].name@, n[j].name@) by {
                if j < p {
                    assert(n[i] == old_out[i] && n[j] == old_out[j]);
                } else if j == p {
                    assert(n[i] == old_out[i] && n[j] == x);
                } else if i < p {
                    assert(n[i] == old_out[i] && n[j] == old_out[j - 1]);
                    lemma_text_le_trans(old_out[i].name@, x.name@, old_out[j - 1].name@);
                } else if i == p {
                    assert(n[i] == x && n[j] == old_out[j - 1]);
                } else {
                    assert(n[i] == old_out[i - 1] && n[j] == old_out[j - 1]);
                }
            }
            assert(input@.to_multiset().add(out@.to_multiset()) =~= entries@.to_multiset());
        }
    }
    assert(input@ =~= Seq::<InstanceTypeData>::empty());
    assert(out@.to_multiset() =~= entries@.to_multiset());
    out
}

/// The catalog, in ascending order of name, built from the provider's
/// instance types in whatever order they came.
pub fn catalog(types: Vec<(String, InstanceTypeResponse)>) -> (r: Vec<InstanceTypeData>)
    ensures
        sorted_by_name(r@),
        exists|built: Seq<InstanceTypeData>|
            {
                &&& built.len() == types@.len()
                &&& forall|i: int|
                    0 <= i < types@.len() ==> is_entry_of(
                        #[trigger] types@[i].0,
                        types@[i].1,
                        built[i],
                    )
                &&& #[trigger] built.to_multiset() == r@.to_multiset()
            },
{
    let ghost all = types@;
    let mut rest = types;
    let mut built: Vec<InstanceTypeData> = Vec::new();
    while rest.len() > 0
        invariant
            built@.len() + rest@.len() == all.len(),
            rest@ == all.subrange(built@.len() as int, all.len() as int),
            forall|i: int| 0 <= i < built@.len() ==> is_entry_of(
                #[trigger] all[i].0,
                all[i].1,
                built@[i],
            ),
        decreases rest@.len(),
    {
        let (name, resp) = rest.remove(0);
        built.push(catalog_entry(name, resp));
        assert(rest@ =~= all.subrange(built@.len() as int, all.len() as int));
    }
    let ghost seq_built = built@;
    let r = sort_by_name(built);
    assert(seq_built.len() == all.len());
    r
}

/// The provider's description of the type named `gpu`, if it publishes one.
pub fn find_instance_type(types: Vec<(String, InstanceTypeResponse)>, gpu: &str) -> (r: Option<
    InstanceTypeResponse,
>)
    ensures
        r is Some <==> exists|i: int| 0 <= i < types@.len() && (#[trigger] types@[i]).0@ == gpu@,
        r is Some ==> exists|i: int|
            0 <= i < types@.len() && (#[trigger] types@[i]).0@ == gpu@ && types@[i].1 == r->0,
{
    let mut i: usize = 0;
    while i < types.len() && !text_eq(types[i].0.as_str(), gpu)
        invariant
            i <= types@.len(),
            forall|k: int| 0 <= k < i ==> (#[trigger] types@[k]).0@ != gpu@,
        decreases types@.len() - i,
    {
        i = i + 1;
    }
    if i < types.len() {
        let ghost found = types@[i as int];
        assert(found.0@ == gpu@);
        let mut list = types;
        let (_, resp) = list.remove(i);
        Some(resp)
    } else {
        None
    }
}

/// Whether `name` is one of the regions with capacity.
fn has_region(regions: &Vec<Region>, name: &str) -> (r: bool)
    ensures
        r == region_names(regions@).contains(name@),
{
    let mut i: usize = 0;
    while i < regions.len()
        invariant
            i <= regions@.len(),
            forall|k: int| 0 <= k < i ==> regions@[k].name@ != name@,
        decreases regions@.len() - i,
    {
        if text_eq(regions[i].name.as_str(), name) {
            assert(region_names(regions@)[i as int] == name@);
            return true;
        }
        i = i + 1;
    }
    proof {
        if region_names(regions@).contains(name@) {
            let k = choose|k: int| 0 <= k < region_names(regions@).len() && region_names(regions@)[k] == name@;
            assert(regions@[k].name@ == name@);
        }
    }
    false
}

/// The regions where the type `gpu` can be launched now, from the provider's
/// description of it, if there is one.
pub fn check_availability(gpu: &str, found: Option<InstanceTypeResponse>) -> (r: Result<
    Vec<String>,
    LambdaError,
>)
    ensures
        found is None ==> r is Err && (r->Err_0 matches LambdaError::InstanceTypeNotFound(g)
            && g@ == gpu@),
        found is Some ==> r is Ok && views(r->Ok_0@) == region_names(
            found->0.regions_with_capacity_available@,
        ),
{
    match found {
        None => Err(LambdaError::InstanceTypeNotFound(String::from_str(gpu))),
        Some(t) => Ok(capacity_regions(&t)),
    }
}

/// Chooses the launch region for the type `gpu`. A requested region must be
/// one with capacity; without a request the first region with capacity, in
/// the provider's order, is taken.
pub fn resolve_region(gpu: &str, requested: Option<&str>, found: Option<&InstanceTypeResponse>) -> (r:
    Result<String, LambdaError>)
    ensures
        found is None ==> r is Err && (r->Err_0 matches LambdaError::InstanceTypeNotFound(g)
            && g@ == gpu@),
        found is Some ==> {
            let names = region_names(found->0.regions_with_capacity_available@);
            match requested {
                Some(q) => if names.contains(q@) {
                    r is Ok && r->Ok_0@ == q@
                } else {
                    r is Err && (r->Err_0 matches LambdaError::RegionNotAvailable {
                        region,
                        gpu: g,
                        available,
                    } && region@ == q@ && g@ == gpu@ && views(available@) == names)
                },
                None => if names.len() > 0 {
                    r is Ok && r->Ok_0@ == names[0]
                } else {
                    r is Err && (r->Err_0 matches LambdaError::NoRegionsAvailable(g) && g@ == gpu@)
                },
            }
        },
{
    let t = match found {
        None => {
            return Err(LambdaError::InstanceTypeNotFound(String::from_str(gpu)));
        },
        Some(t) => t,
    };
    let regions = &t.regions_with_capacity_available;
    match requested {
        Some(q) => {
            if has_region(regions, q) {
                Ok(String::from_str(q))
            } else {
                Err(
                    LambdaError::RegionNotAvailable {
                        region: String::from_str(q),
                        gpu: String::from_str(gpu),
                        available: capacity_regions(t),
                    },
                )
            }
        },
        None => {
            if regions.len() == 0 {
                Err(LambdaError::NoRegionsAvailable(String::from_str(gpu)))
            } else {
                Ok(String::from_str(regions[0].name.as_str()))
            }
        },
    }
}

/// A request to launch one instance.
#[derive(Debug, Clone)]
pub struct LaunchRequest {
    pub gpu: String,
    pub ssh_key: String,
    pub name: Option<String>,
    pub region: Option<String>,
    pub filesystem: Option<String>,
}

/// The body of a launch call.
#[derive(Debug, Clone)]
pub struct LaunchPayload {
    pub region_name: String,
    pub instance_type_name: String,
    pub ssh_key_names: Vec<String>,
    pub quantity: u32,
    pub name: Option<String>,
    pub file_system_names: Option<Vec<String>>,
}

/// The view of an optional text.
pub open spec fn opt_view(o: Option<String>) -> Option<Seq<char>> {
    match o {
        Some(s) => Some(s@),
        None => None,
    }
}

fn opt_str(o: &Option<String>) -> (r: Option<&str>)
    ensures
        match r {
            Some(s) => o is Some && s@ == o->0@,
            None => o is None,
        },
{
    match o {
        Some(s) => Some(s.as_str()),
        None => None,
    }
}

fn opt_clone(o: &Option<String>) -> (r: Option<String>)
    ensures
        opt_view(r) == opt_view(*o),
{
    match o {
        Some(s) => Some(s.clone()),
        None => None,
    }
}

/// Prepares a launch: the SSH key must be given, and the region is resolved
/// from current capacity before anything is sent.
pub fn plan_launch(request: &LaunchRequest, found: Option<&InstanceTypeResponse>) -> (r: Result<
    LaunchPayload,
    LambdaError,
>)
    ensures
        request.ssh_key@.len() == 0 ==> r is Err && r->Err_0 is SshKeyRequired,
        request.ssh_key@.len() > 0 ==> {
            let region = resolve_region_result(request, found);
            &&& (r is Ok <==> region is Ok)
            &&& r is Ok ==> {
                let p = r->Ok_0;
                &&& p.region_name@ == region->Ok_0
                &&& p.instance_type_name@ == request.gpu@
                &&& views(p.ssh_key_names@) == seq![request.ssh_key@]
                &&& p.quantity == 1
                &&& opt_view(p.name) == opt_view(request.name)
                &&& (p.file_system_names is Some <==> request.filesystem is Some)
                &&& p.file_system_names is Some ==> views(p.file_system_names->0@) == seq![
                    request.filesystem->0@,
                ]
            }
        },
{
    if request.ssh_key.unicode_len() == 0 {
        return Err(LambdaError::SshKeyRequired);
    }
    let region_name = match resolve_region(request.gpu.as_str(), opt_str(&request.region), found) {
        Ok(region) => region,
        Err(e) => {
            return Err(e);
        },
    };
    let mut keys: Vec<String> = Vec::new();
    keys.push(request.ssh_key.clone());
    assert(views(keys@) =~= seq![request.ssh_key@]);
    let file_system_names = match &request.filesystem {
        Some(f) => {
            let mut v: Vec<String> = Vec::new();
            v.push(f.clone());
            assert(views(v@) =~= seq![f@]);
            Some(v)
        },
        None => None,
    };
    Ok(
        LaunchPayload {
            region_name,
            instance_type_name: request.gpu.clone(),
            ssh_key_names: keys,
            quantity: 1,
            name: opt_clone(&request.name),
            file_system_names,
        },
    )
}

/// Whether resolving the request's region succeeds, and what it gives.
pub open spec fn resolve_region_result(request: &LaunchRequest, found: Option<&InstanceTypeResponse>) -> Result<
    Seq<char>,
    (),
> {
    match found {
        None => Err(()),
        Some(t) => {
            let names = region_names(t.regions_with_capacity_available@);
            match request.region {
                Some(q) => if names.contains(q@) {
                    Ok(q@)
                } else {
                    Err(())
                },
                None => if names.len() > 0 {
                    Ok(names[0])
                } else {
                    Err(())
                },
            }
        },
    }
}

/// The result of a launch whose call succeeded: the first instance id it
/// names, in the region chosen; an answer with no id is an error.
pub fn launch_result(response: LaunchResponse, region: String) -> (r: Result<LaunchResult, LambdaError>)
    ensures
        response.instance_ids@.len() == 0 ==> r is Err && r->Err_0 is NoInstanceIds,
        response.instance_ids@.len() > 0 ==> r is Ok && r->Ok_0.instance_id
            == response.instance_ids@[0] && r->Ok_0.region == region,
{
    let mut ids = response.instance_ids;
    if ids.len() == 0 {
        Err(LambdaError::NoInstanceIds)
    } else {
        let instance_id = ids.remove(0);
        Ok(LaunchResult { instance_id, region })
    }
}

/// The body of a terminate call.
#[derive(Debug, Clone)]
pub struct TerminatePayload {
    pub instance_ids: Vec<String>,
}

/// The terminate call for one instance.
pub fn terminate_payload(instance_id: &str) -> (r: TerminatePayload)
    ensures
        views(r.instance_ids@) == seq![instance_id@],
{
    let mut ids: Vec<String> = Vec::new();
    ids.push(String::from_str(instance_id));
    assert(views(ids@) =~= seq![instance_id@]);
    TerminatePayload { instance_ids: ids }
}

/// The body of a filesystem-creation call.
#[derive(Debug, Clone)]
pub struct CreateFilesystemPayload {
    pub name: String,
    pub region_name: String,
}

/// The creation call for a filesystem `name` in `region`.
pub fn create_filesystem_payload(name: &str, region: &str) -> (r: CreateFilesystemPayload)
    ensures
        r.name@ == name@,
        r.region_name@ == region@,
{
    CreateFilesystemPayload { name: String::from_str(name), region_name: String::from_str(region) }
}

/// No two entries share a name, as in the provider's catalog, which is keyed
/// by name.
pub open spec fn names_distinct(s: Seq<InstanceTypeData>) -> bool {
    forall|i: int, j: int| 0 <= i < j < s.len() ==> s[i].name@ != s[j].name@
}

/// The order of the catalog does not depend on the order in which the
/// provider listed it: two arrangements of the same entries, both in
/// ascending order of name, are the same list.
pub proof fn lemma_name_order_is_unique(a: Seq<InstanceTypeData>, b: Seq<InstanceTypeData>)
    requires
        sorted_by_name(a),
        sorted_by_name(b),
        names_distinct(a),
        a.to_multiset() == b.to_multiset(),
    ensures
        a == b,
    decreases a.len(),
{
    broadcast use vstd::seq_lib::group_to_multiset_ensures;
    broadcast use vstd::multiset::group_multiset_axioms;

    vstd::seq_lib::to_multiset_len(a);
    vstd::seq_lib::to_multiset_len(b);
    if a.len() == 0 {
        assert(b.len() == 0);
        assert(a =~= b);
    } else {
        vstd::seq_lib::to_multiset_contains(a, a[0]);
        vstd::seq_lib::to_multiset_contains(b, b[0]);
        vstd::seq_lib::to_multiset_contains(b, a[0]);
        vstd::seq_lib::to_multiset_contains(a, b[0]);
        let j = choose|j: int| 0 <= j < b.len() && b[j] == a[0];
        let i = choose|i: int| 0 <= i < a.len() && a[i] == b[0];
        if i != 0 {
            assert(text_le(a[0].name@, a[i].name@));
            if j > 0 {
                assert(text_le(b[0].name@, b[j].name@));
            }
            lemma_text_le_total(a[0].name@, a[i].name@);
            assert(a[0].name@ == a[i].name@);
        }
        assert(b[0] == a[0]);
        vstd::seq_lib::to_multiset_remove(a, 0);
        vstd::seq_lib::to_multiset_remove(b, 0);
        assert(a.remove(0) =~= a.drop_first());
        assert(b.remove(0) =~= b.drop_first());
        let a1 = a.drop_first();
        let b1 = b.drop_first();
        assert(sorted_by_name(a1)) by {
            assert forall|x: int, y: int| 0 <= x < y < a1.len() implies text_le(a1[x].name@, a1[y].name@) by {
                assert(a1[x] == a[x + 1] && a1[y] == a[y + 1]);
            }
        }
        assert(sorted_by_name(b1)) by {
            assert forall|x: int, y: int| 0 <= x < y < b1.len() implies text_le(b1[x].name@, b1[y].name@) by {
                assert(b1[x] == b[x + 1] && b1[y] == b[y + 1]);
            }
        }
        assert(names_distinct(a1)) by {
            assert forall|x: int, y: int| 0 <= x < y < a1.len() implies a1[x].name@ != a1[y].name@ by {
                assert(a1[x] == a[x + 1] && a1[y] == a[y + 1]);
            }
        }
        lemma_name_order_is_unique(a1, b1);
        assert(a =~= b) by {
            assert forall|k: int| 0 <= k < a.len() implies a[k] == b[k] by {
                if k > 0 {
                    assert(a[k] == a1[k - 1] && b[k] == b1[k - 1]);
                }
            }
        }
    }
}

} // verus!
