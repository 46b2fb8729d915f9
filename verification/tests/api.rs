use realm::api::{is_authorized, ApiError, InstanceStatus, InstanceTable};
use realm::conf::EndpointConf;

fn endpoint(listen: &str, remote: &str) -> EndpointConf {
    EndpointConf::from_cmd_values(String::from(listen), String::from(remote), None, None, None, None, None)
}

#[test]
fn authorization() {
    assert!(is_authorized(&None, None));
    assert!(is_authorized(&None, Some("anything")));
    let key = Some(String::from("secret"));
    assert!(is_authorized(&key, Some("secret")));
    assert!(!is_authorized(&key, Some("Secret")));
    assert!(!is_authorized(&key, None));
}

#[test]
fn status_codes() {
    assert_eq!(ApiError::NotFound.status_code(), 404);
    assert_eq!(ApiError::Conflict.status_code(), 409);
    assert_eq!(ApiError::InternalServerError.status_code(), 500);
}

#[test]
fn create_then_get_and_list() {
    let mut t = InstanceTable::new();
    let a = t.create(String::from("a"), endpoint("0.0.0.0:1", "x:1"), Ok((true, false))).unwrap();
    assert_eq!(a.id, "a");
    assert!(matches!(a.status, InstanceStatus::Running));
    let r = t.create(String::from("b"), endpoint("0.0.0.0:2", "x:2"), Err(String::from("bind failed")));
    assert_eq!(r.unwrap_err(), ApiError::InternalServerError);
    let b = t.get("b").unwrap();
    match b.status {
        InstanceStatus::Failed(m) => assert_eq!(m, "bind failed"),
        _ => panic!("expected a failed instance"),
    }
    assert_eq!(t.get("a").unwrap().config.listen, "0.0.0.0:1");
    assert!(t.get("c").is_none());
    assert!(t.contains("a"));
    let mut ids: Vec<String> = t.list().into_iter().map(|i| i.id).collect();
    ids.sort();
    assert_eq!(ids, vec![String::from("a"), String::from("b")]);
}

#[test]
fn update_replaces_config() {
    let mut t = InstanceTable::new();
    t.create(String::from("a"), endpoint("0.0.0.0:1", "x:1"), Ok((true, true))).unwrap();
    let u = t.update("a", endpoint("0.0.0.0:9", "y:9"), Ok((true, false))).unwrap();
    assert_eq!(u.config.listen, "0.0.0.0:9");
    assert_eq!(t.get("a").unwrap().config.remote, "y:9");
    let e = t.update("a", endpoint("0.0.0.0:5", "z:5"), Err(String::from("no")));
    assert_eq!(e.unwrap_err(), ApiError::InternalServerError);
    let a = t.get("a").unwrap();
    assert_eq!(a.config.listen, "0.0.0.0:9");
    assert!(matches!(a.status, InstanceStatus::Failed(_)));
    assert_eq!(t.update("zz", endpoint("l", "r"), Ok((true, false))).unwrap_err(), ApiError::NotFound);
}

#[test]
fn start_stop_conflicts() {
    let mut t = InstanceTable::new();
    t.create(String::from("a"), endpoint("0.0.0.0:1", "x:1"), Ok((true, false))).unwrap();
    assert_eq!(t.check_start("a"), Err(ApiError::Conflict));
    assert_eq!(t.check_start("nope"), Err(ApiError::NotFound));
    let s = t.stop("a").unwrap();
    assert!(matches!(s.status, InstanceStatus::Stopped));
    assert_eq!(t.stop("a").unwrap_err(), ApiError::Conflict);
    assert_eq!(t.stop("nope").unwrap_err(), ApiError::NotFound);
    assert_eq!(t.check_start("a"), Ok(()));
    let r = t.record_start("a", Ok((false, true))).unwrap();
    assert!(matches!(r.status, InstanceStatus::Running));
    assert_eq!(r.config.listen, "0.0.0.0:1");
    assert_eq!(t.check_start("a"), Err(ApiError::Conflict));
    assert_eq!(t.record_start("nope", Ok((true, true))).unwrap_err(), ApiError::NotFound);
    assert_eq!(t.record_start("a", Err(String::from("e"))).unwrap_err(), ApiError::InternalServerError);
    assert_eq!(t.check_start("a"), Ok(()));
}

#[test]
fn delete_then_get() {
    let mut t = InstanceTable::new();
    t.create(String::from("a"), endpoint("0.0.0.0:1", "x:1"), Ok((true, false))).unwrap();
    t.create(String::from("b"), endpoint("0.0.0.0:2", "x:2"), Ok((true, false))).unwrap();
    assert_eq!(t.delete("a"), Ok(()));
    assert!(t.get("a").is_none());
    assert!(t.get("b").is_some());
    assert_eq!(t.delete("a"), Err(ApiError::NotFound));
    assert_eq!(t.list().len(), 1);
}
