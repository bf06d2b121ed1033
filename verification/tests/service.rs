use network::{registration, ConstructionError, Phase, Service};

#[test]
fn start_failure_yields_construction_error() {
    let built = Service::<u8, u16>::new(7u16, Err::<u8, &str>("port already bound"), [1, 2, 3]);
    match built {
        Err(ConstructionError::TransportStart(cause)) => assert_eq!(cause, "port already bound"),
        Ok(_) => panic!("a service was built over a transport that did not start"),
    }
}

#[test]
fn started_transport_is_shared_behind_the_lock() {
    let (service, task) = match Service::<u8, u16>::new(7u16, Ok::<u8, &str>(42u8), [1, 2, 3]) {
        Ok(pair) => pair,
        Err(_) => panic!("the transport started"),
    };
    assert_eq!(*service.network().lock(), 42u8);
    assert_eq!(**service.protocol(), 7u16);
    assert!(std::sync::Arc::ptr_eq(service.network(), task.network()));
    assert!(std::sync::Arc::ptr_eq(service.protocol(), task.protocol()));
    assert_eq!(std::sync::Arc::strong_count(service.network()), 2);
    assert_eq!(std::sync::Arc::strong_count(service.protocol()), 2);
    assert_eq!(task.protocol_id(), [1, 2, 3]);
    assert_eq!(task.phase(), Phase::Running);
    *task.network().lock() = 43;
    assert_eq!(*service.network().lock(), 43u8);
}

#[test]
fn registration_carries_the_low_byte_of_the_version() {
    assert_eq!(registration([9, 9, 9], 1).versions, vec![1u8]);
    assert_eq!(registration([9, 9, 9], 255).versions, vec![255u8]);
    assert_eq!(registration([9, 9, 9], 256).versions, vec![0u8]);
    assert_eq!(registration([9, 9, 9], 257).versions, vec![1u8]);
    assert_eq!(registration([9, 8, 7], 1).protocol_id, [9, 8, 7]);
}
