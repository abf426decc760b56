use lambda_cli::api::{
    bearer, catalog, check_availability, create_filesystem_payload, file_system_url,
    find_instance_type, instance_url, launch_result, plan_launch, rejection, resolve_region,
    sort_by_name, terminate_payload, ApiErrorDetail, ApiErrorResponse, InstanceSpecs,
    InstanceType, InstanceTypeData, InstanceTypeResponse, LaunchRequest, LaunchResponse,
    Operation, Region, API_BASE_URL, DEFAULT_TIMEOUT_SECS,
};
use lambda_cli::LambdaError;

fn region(name: &str) -> Region {
    Region { name: name.to_string(), description: format!("{} zone", name) }
}

fn type_response(regions: &[&str]) -> InstanceTypeResponse {
    InstanceTypeResponse {
        instance_type: InstanceType {
            description: "1x A100 GPU".to_string(),
            price_cents_per_hour: 110,
            specs: InstanceSpecs { vcpus: 24, memory_gib: 200, storage_gib: 512 },
        },
        regions_with_capacity_available: regions.iter().map(|r| region(r)).collect(),
    }
}

fn entry(name: &str) -> InstanceTypeData {
    InstanceTypeData {
        name: name.to_string(),
        description: String::new(),
        price_cents_per_hour: 0,
        vcpus: 1,
        memory_gib: 1,
        storage_gib: 1,
        regions_available: vec![],
    }
}

fn request(region: Option<&str>) -> LaunchRequest {
    LaunchRequest {
        gpu: "gpu_1x_a100".to_string(),
        ssh_key: "my-key".to_string(),
        name: None,
        region: region.map(|r| r.to_string()),
        filesystem: None,
    }
}

#[test]
fn api_test_lambda_error_messages() {
    assert_eq!(
        LambdaError::ApiKeyNotSet.to_string(),
        "API key not set. Set LAMBDA_API_KEY or LAMBDA_API_KEY_COMMAND environment variable"
    );
    assert_eq!(
        LambdaError::InstanceTypeNotFound("gpu_1x_a100".to_string()).to_string(),
        "Instance type 'gpu_1x_a100' not found"
    );
}

#[test]
fn api_test_api_base_url() {
    assert_eq!(API_BASE_URL, "https://cloud.lambdalabs.com/api/v1");
}

#[test]
fn test_url_construction() {
    let instance_id = "inst-123";
    let url = format!("{}/instances/{}", API_BASE_URL, instance_id);
    assert_eq!(url, "https://cloud.lambdalabs.com/api/v1/instances/inst-123");
}

#[test]
fn test_instance_type_response_clone() {
    let response = InstanceTypeResponse {
        instance_type: InstanceType {
            description: "Test GPU".to_string(),
            price_cents_per_hour: 100,
            specs: InstanceSpecs { vcpus: 8, memory_gib: 64, storage_gib: 256 },
        },
        regions_with_capacity_available: vec![Region {
            name: "us-west-1".to_string(),
            description: "US West".to_string(),
        }],
    };

    let cloned = response.clone();
    assert_eq!(cloned.instance_type.description, "Test GPU");
    assert_eq!(cloned.regions_with_capacity_available.len(), 1);
}

#[test]
fn test_first_on_empty_vec() {
    let empty: Vec<String> = vec![];
    assert!(empty.first().is_none());
}

#[test]
fn test_first_on_non_empty_vec() {
    let vec = vec!["first".to_string(), "second".to_string()];
    assert_eq!(vec.first(), Some(&"first".to_string()));
}

#[test]
fn test_default_timeout() {
    assert_eq!(DEFAULT_TIMEOUT_SECS, 30);
}

#[test]
fn instance_and_filesystem_urls() {
    assert_eq!(instance_url("inst-123"), "https://cloud.lambdalabs.com/api/v1/instances/inst-123");
    assert_eq!(file_system_url("fs-9"), "https://cloud.lambdalabs.com/api/v1/file-systems/fs-9");
    assert_eq!(bearer("k"), "Bearer k");
}

#[test]
fn error_texts_of_every_variant() {
    assert_eq!(
        LambdaError::ApiKeyCommandFailed("boom".to_string()).to_string(),
        "Failed to execute API key command: boom"
    );
    assert_eq!(
        LambdaError::NoRegionsAvailable("gpu_1x_a100".to_string()).to_string(),
        "No regions available for instance type 'gpu_1x_a100'"
    );
    assert_eq!(LambdaError::NoInstanceIds.to_string(), "No instance IDs returned from launch request");
    assert_eq!(LambdaError::ApiError("timeout".to_string()).to_string(), "API request failed: timeout");
    assert_eq!(LambdaError::SshKeyRequired.to_string(), "SSH key is required for this operation");
    assert_eq!(
        LambdaError::InstanceEnteredState("terminated".to_string()).to_string(),
        "Instance entered terminated state"
    );
    assert_eq!(LambdaError::ProviderRejected("nope".to_string()).to_string(), "nope");
}

#[test]
fn rejection_carries_status_and_message() {
    let body = Some(ApiErrorResponse {
        error: ApiErrorDetail { message: "Invalid API key".to_string() },
    });
    let e = rejection(Operation::ValidateKey, "401 Unauthorized", body);
    assert_eq!(e.to_string(), "API key validation failed (401 Unauthorized): Invalid API key");
    let e = rejection(Operation::Launch, "500 Internal Server Error", None);
    assert_eq!(e.to_string(), "Failed to launch instance (500 Internal Server Error): Unknown error");
}

#[test]
fn catalog_is_sorted_by_name_whatever_the_input_order() {
    let types = vec![
        ("gpu_8x_h100".to_string(), type_response(&[])),
        ("gpu_1x_a10".to_string(), type_response(&["us-east-1"])),
        ("gpu_1x_a100".to_string(), type_response(&["us-west-1", "us-east-1"])),
    ];
    let out = catalog(types);
    let names: Vec<&str> = out.iter().map(|d| d.name.as_str()).collect();
    assert_eq!(names, vec!["gpu_1x_a10", "gpu_1x_a100", "gpu_8x_h100"]);
    assert_eq!(out[1].regions_available, vec!["us-west-1".to_string(), "us-east-1".to_string()]);
    assert_eq!(out[1].price_cents_per_hour, 110);
    assert_eq!(out[1].vcpus, 24);
    assert!(out[2].regions_available.is_empty());

    let reversed = sort_by_name(vec![entry("c"), entry("b"), entry("a")]);
    let again = sort_by_name(vec![entry("b"), entry("a"), entry("c")]);
    let r1: Vec<String> = reversed.iter().map(|d| d.name.clone()).collect();
    let r2: Vec<String> = again.iter().map(|d| d.name.clone()).collect();
    assert_eq!(r1, vec!["a", "b", "c"]);
    assert_eq!(r1, r2);
}

#[test]
fn empty_catalog_stays_empty() {
    assert!(catalog(vec![]).is_empty());
}

#[test]
fn lookup_finds_type_by_name() {
    let types = vec![
        ("gpu_1x_a10".to_string(), type_response(&["us-east-1"])),
        ("gpu_8x_h100".to_string(), type_response(&[])),
    ];
    let found = find_instance_type(types.clone(), "gpu_1x_a10").unwrap();
    assert_eq!(found.regions_with_capacity_available[0].name, "us-east-1");
    assert!(find_instance_type(types, "gpu_1x_a100").is_none());
}

#[test]
fn availability_lists_regions_or_reports_unknown_type() {
    let regions = check_availability("gpu_1x_a100", Some(type_response(&["us-west-1", "us-east-1"])));
    assert_eq!(regions.unwrap(), vec!["us-west-1".to_string(), "us-east-1".to_string()]);
    match check_availability("gpu_x", None) {
        Err(LambdaError::InstanceTypeNotFound(g)) => assert_eq!(g, "gpu_x"),
        other => panic!("unexpected {:?}", other),
    }
}

#[test]
fn auto_selects_first_region() {
    let t = type_response(&["us-west-1", "us-east-1"]);
    assert_eq!(resolve_region("gpu_1x_a100", None, Some(&t)).unwrap(), "us-west-1");
}

#[test]
fn requested_region_with_capacity_is_kept() {
    let t = type_response(&["us-west-1", "us-east-1"]);
    assert_eq!(resolve_region("gpu_1x_a100", Some("us-east-1"), Some(&t)).unwrap(), "us-east-1");
}

#[test]
fn requested_region_without_capacity_lists_available_ones() {
    let t = type_response(&["us-west-1", "us-east-1"]);
    let e = resolve_region("gpu_1x_a100", Some("eu-central-1"), Some(&t)).unwrap_err();
    match &e {
        LambdaError::RegionNotAvailable { region, gpu, available } => {
            assert_eq!(region, "eu-central-1");
            assert_eq!(gpu, "gpu_1x_a100");
            assert_eq!(available, &vec!["us-west-1".to_string(), "us-east-1".to_string()]);
        }
        other => panic!("unexpected {:?}", other),
    }
    assert_eq!(
        e.to_string(),
        "Region 'eu-central-1' is not available for instance type 'gpu_1x_a100'. Available regions: us-west-1, us-east-1"
    );
}

#[test]
fn no_capacity_and_unknown_type_fail() {
    let t = type_response(&[]);
    match resolve_region("gpu_8x_h100", None, Some(&t)) {
        Err(LambdaError::NoRegionsAvailable(g)) => assert_eq!(g, "gpu_8x_h100"),
        other => panic!("unexpected {:?}", other),
    }
    match resolve_region("gpu_8x_h100", None, None) {
        Err(LambdaError::InstanceTypeNotFound(g)) => assert_eq!(g, "gpu_8x_h100"),
        other => panic!("unexpected {:?}", other),
    }
}

#[test]
fn launch_plan_without_name() {
    let t = type_response(&["us-west-1"]);
    let p = plan_launch(&request(None), Some(&t)).unwrap();
    assert_eq!(p.region_name, "us-west-1");
    assert_eq!(p.instance_type_name, "gpu_1x_a100");
    assert_eq!(p.ssh_key_names, vec!["my-key".to_string()]);
    assert_eq!(p.quantity, 1);
    assert!(p.name.is_none());
    assert!(p.file_system_names.is_none());
}

#[test]
fn launch_plan_with_name_and_filesystem() {
    let t = type_response(&["us-west-1", "us-east-1"]);
    let mut req = request(Some("us-east-1"));
    req.name = Some("my-training-job".to_string());
    req.filesystem = Some("shared".to_string());
    let p = plan_launch(&req, Some(&t)).unwrap();
    assert_eq!(p.region_name, "us-east-1");
    assert_eq!(p.name.as_deref(), Some("my-training-job"));
    assert_eq!(p.file_system_names, Some(vec!["shared".to_string()]));
}

#[test]
fn launch_plan_needs_ssh_key_and_capacity() {
    let t = type_response(&["us-west-1"]);
    let mut req = request(None);
    req.ssh_key = String::new();
    assert!(matches!(plan_launch(&req, Some(&t)), Err(LambdaError::SshKeyRequired)));
    let empty = type_response(&[]);
    assert!(matches!(
        plan_launch(&request(None), Some(&empty)),
        Err(LambdaError::NoRegionsAvailable(_))
    ));
}

#[test]
fn launch_without_ids_fails() {
    let r = launch_result(LaunchResponse { instance_ids: vec![] }, "us-west-1".to_string());
    assert!(matches!(r, Err(LambdaError::NoInstanceIds)));
}

#[test]
fn launch_takes_first_id() {
    let r = launch_result(
        LaunchResponse { instance_ids: vec!["inst-abc".to_string(), "inst-def".to_string()] },
        "us-west-1".to_string(),
    )
    .unwrap();
    assert_eq!(r.instance_id, "inst-abc");
    assert_eq!(r.region, "us-west-1");
}

#[test]
fn terminate_and_filesystem_payloads() {
    let t = terminate_payload("inst-123");
    assert_eq!(t.instance_ids, vec!["inst-123".to_string()]);
    let c = create_filesystem_payload("data", "us-east-1");
    assert_eq!(c.name, "data");
    assert_eq!(c.region_name, "us-east-1");
}
