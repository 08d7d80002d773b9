use n8n_launcher::health::{
    effective_port, health_endpoints, images_available_from, is_healthy_http_status, n8n_listed,
    N8NCheck, N8NPhase,
};
use n8n_launcher::status::N8NStatus;

fn finished(check: &N8NCheck) -> Option<&Result<N8NStatus, String>> {
    match &check.phase {
        N8NPhase::Done { result } => Some(result),
        _ => None,
    }
}

#[test]
fn healthy_statuses_are_2xx_or_401() {
    assert!(is_healthy_http_status(200));
    assert!(is_healthy_http_status(204));
    assert!(is_healthy_http_status(299));
    assert!(is_healthy_http_status(401));
    assert!(!is_healthy_http_status(199));
    assert!(!is_healthy_http_status(300));
    assert!(!is_healthy_http_status(404));
    assert!(!is_healthy_http_status(500));
}

#[test]
fn port_defaults_to_5678() {
    assert_eq!(effective_port(None), "5678");
    assert_eq!(effective_port(Some(String::from("8080"))), "8080");
}

#[test]
fn endpoints_are_probed_in_documented_order() {
    assert_eq!(
        health_endpoints("5678"),
        vec![
            String::from("http://localhost:5678/healthz"),
            String::from("http://localhost:5678/api/v1/health"),
            String::from("http://localhost:5678"),
        ]
    );
}

#[test]
fn images_query_needs_success_and_non_blank_output() {
    assert!(images_available_from(true, "n8nio/n8n\n"));
    assert!(!images_available_from(true, " \n\t"));
    assert!(!images_available_from(false, "n8nio/n8n\n"));
}

#[test]
fn container_queries_look_for_n8n_in_the_output() {
    assert!(n8n_listed(true, "docker-n8n-editor-1\n"));
    assert!(!n8n_listed(true, "redis\npostgres\n"));
    assert!(!n8n_listed(false, "n8n"));
}

#[test]
fn reports_docker_not_found_after_all_candidates_fail() {
    let mut check = N8NCheck::new(None);
    let req = check.request().expect("a locate request");
    assert_eq!(req.program, "docker");
    assert_eq!(req.args, vec![String::from("--version")]);
    assert_eq!(req.timeout_secs, 2);
    for _ in 0..5 {
        check.on_locate_outcome(false);
    }
    assert_eq!(finished(&check), Some(&Err(String::from("Docker not found"))));
}

#[test]
fn failed_container_layer_reports_not_running_with_layer_details() {
    let mut check = N8NCheck::new(None);
    check.on_locate_outcome(true);
    check.on_images_outcome(true, "n8nio/n8n\n");
    check.on_running_outcome(true, "");
    check.on_existing_outcome(true, "n8n-editor-1\n");
    assert_eq!(
        finished(&check),
        Some(&Ok(N8NStatus {
            running: false,
            containers_exist: true,
            images_available: true,
            error_message: None,
        }))
    );
}

#[test]
fn healthy_probe_reports_running() {
    let mut check = N8NCheck::new(None);
    check.on_locate_outcome(true);
    check.on_images_outcome(true, "n8nio/n8n\n");
    check.on_running_outcome(true, "docker-n8n-1\n");
    check.on_existing_outcome(true, "docker-n8n-1\n");
    assert_eq!(
        check.current_endpoint(),
        Some(String::from("http://localhost:5678/healthz"))
    );
    check.on_http_response(None);
    assert_eq!(
        check.current_endpoint(),
        Some(String::from("http://localhost:5678/api/v1/health"))
    );
    check.on_http_response(Some(401));
    assert_eq!(
        finished(&check),
        Some(&Ok(N8NStatus {
            running: true,
            containers_exist: true,
            images_available: true,
            error_message: None,
        }))
    );
}

#[test]
fn unresponsive_service_reports_containers_up_but_not_running() {
    let mut check = N8NCheck::new(Some(String::from("9999")));
    check.on_locate_outcome(false);
    check.on_locate_outcome(true);
    check.on_images_outcome(true, "n8nio/n8n\n");
    check.on_running_outcome(true, "docker-n8n-1\n");
    check.on_existing_outcome(true, "docker-n8n-1\n");
    assert_eq!(
        check.current_endpoint(),
        Some(String::from("http://localhost:9999/healthz"))
    );
    check.on_http_response(Some(500));
    check.on_http_response(Some(404));
    check.on_http_response(None);
    assert_eq!(
        finished(&check),
        Some(&Ok(N8NStatus {
            running: false,
            containers_exist: true,
            images_available: true,
            error_message: Some(String::from("Containers running but N8N not responding")),
        }))
    );
}

#[test]
fn docker_queries_run_at_the_found_binary() {
    let mut check = N8NCheck::new(None);
    check.on_locate_outcome(false);
    check.on_locate_outcome(true);
    let req = check.request().expect("an images request");
    assert_eq!(req.program, "/usr/local/bin/docker");
    assert_eq!(req.timeout_secs, 3);
    assert_eq!(
        req.args,
        vec![
            String::from("images"),
            String::from("n8nio/n8n"),
            String::from("--format"),
            String::from("{{.Repository}}"),
        ]
    );
    check.on_images_outcome(true, "n8nio/n8n\n");
    let req = check.request().expect("a running-containers request");
    assert_eq!(
        req.args,
        vec![
            String::from("ps"),
            String::from("--filter"),
            String::from("name=n8n"),
            String::from("--format"),
            String::from("{{.Names}}"),
        ]
    );
    check.on_running_outcome(true, "docker-n8n-1\n");
    let req = check.request().expect("an all-containers request");
    assert_eq!(
        req.args,
        vec![
            String::from("ps"),
            String::from("-a"),
            String::from("--filter"),
            String::from("name=n8n"),
            String::from("--format"),
            String::from("{{.Names}}"),
        ]
    );
}
