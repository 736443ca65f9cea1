//! Tests of the capability check, the back-end handler and the dispatcher.

use parsec_core::backend::{BackEndHandler, BackEndHandlerBuilder, Provider};
use parsec_core::codec::{Converter, operation_to_body, body_to_result};
use parsec_core::core_provider::CoreProvider;
use parsec_core::dispatcher::Dispatcher;
use parsec_core::operations::{NativeOperation, NativeResult, OpPing};
use parsec_core::requests::{
    AuthType, BodyType, Opcode, ProviderId, Request, RequestHeader, ResponseStatus,
};

fn header(opcode: Opcode, provider: ProviderId) -> RequestHeader {
    RequestHeader {
        version_maj: 1,
        version_min: 0,
        provider,
        session: 0,
        content_type: BodyType::Canonical,
        accept_type: BodyType::Canonical,
        auth_type: AuthType::NoAuth,
        opcode,
    }
}

fn core_handler() -> BackEndHandler {
    let core = CoreProvider {
        version_min: 0,
        version_maj: 1,
        providers: Vec::new(),
    };
    BackEndHandlerBuilder::new()
        .with_provider(Provider::Core(core))
        .with_converter(Converter::new())
        .with_provider_id(ProviderId::Core)
        .with_content_type(BodyType::Canonical)
        .with_accept_type(BodyType::Canonical)
        .build()
        .unwrap()
}

#[test]
fn wrong_provider_in_header_is_refused() {
    let handler = core_handler();
    let request = Request {
        header: header(Opcode::Ping, ProviderId::Pkcs11),
        body: Vec::new(),
    };
    assert_eq!(handler.is_capable(&request), Err(ResponseStatus::WrongProviderId));
}

#[test]
fn core_opcode_on_non_core_provider_is_unsupported() {
    let handler = core_handler();
    let sign = Request {
        header: header(Opcode::PsaSignHash, ProviderId::Core),
        body: Vec::new(),
    };
    assert_eq!(handler.is_capable(&sign), Err(ResponseStatus::PsaErrorNotSupported));
}

#[test]
fn body_type_mismatches_are_refused_in_order() {
    let handler = core_handler();
    let mut h = header(Opcode::Ping, ProviderId::Core);
    h.content_type = BodyType::Raw;
    let request = Request { header: h, body: Vec::new() };
    assert_eq!(handler.is_capable(&request), Err(ResponseStatus::ContentTypeNotSupported));
    let mut h2 = header(Opcode::Ping, ProviderId::Core);
    h2.accept_type = BodyType::Raw;
    let request2 = Request { header: h2, body: Vec::new() };
    assert_eq!(handler.is_capable(&request2), Err(ResponseStatus::AcceptTypeNotSupported));
    let good = Request {
        header: header(Opcode::Ping, ProviderId::Core),
        body: Vec::new(),
    };
    assert_eq!(handler.is_capable(&good), Ok(()));
}

#[test]
fn ping_through_core_returns_configured_version() {
    let mut dispatcher = Dispatcher::new();
    dispatcher.register(ProviderId::Core, core_handler());
    let body = operation_to_body(&NativeOperation::Ping(OpPing {})).unwrap();
    let request = Request {
        header: header(Opcode::Ping, ProviderId::Core),
        body,
    };
    let response = dispatcher.dispatch(request, None);
    assert_eq!(response.status, ResponseStatus::Success);
    match body_to_result(&response.body, Opcode::Ping).unwrap() {
        NativeResult::Ping(p) => {
            assert_eq!(p.supp_version_maj, 1);
            assert_eq!(p.supp_version_min, 0);
        }
        _ => panic!("ping must decode as a ping result"),
    }
}

#[test]
fn unauthenticated_sign_is_refused_before_any_provider_runs() {
    // A handler installed for the PKCS#11 provider id; the sign request
    // carries no application name, so the refusal comes before any
    // provider method could run.
    let core = CoreProvider {
        version_min: 0,
        version_maj: 1,
        providers: Vec::new(),
    };
    let handler = BackEndHandler {
        provider: Provider::Core(core),
        converter: Converter::new(),
        provider_id: ProviderId::Pkcs11,
        content_type: BodyType::Canonical,
        accept_type: BodyType::Canonical,
    };
    let mut dispatcher = Dispatcher::new();
    dispatcher.register(ProviderId::Pkcs11, handler);
    let body = operation_to_body(&NativeOperation::PsaSignHash {
        key_name: "k".to_string(),
        hash: vec![1, 2, 3],
    })
    .unwrap();
    let request = Request {
        header: header(Opcode::PsaSignHash, ProviderId::Pkcs11),
        body,
    };
    let response = dispatcher.dispatch(request, None);
    assert_eq!(response.status, ResponseStatus::NotAuthenticated);
    assert!(response.body.is_empty());
}

#[test]
fn unregistered_provider_is_reported() {
    let mut dispatcher = Dispatcher::new();
    dispatcher.register(ProviderId::Core, core_handler());
    let request = Request {
        header: header(Opcode::PsaSignHash, ProviderId::Pkcs11),
        body: Vec::new(),
    };
    let response = dispatcher.dispatch(request, None);
    assert_eq!(response.status, ResponseStatus::ProviderNotRegistered);
}

#[test]
fn malformed_body_is_a_decode_failure() {
    let mut dispatcher = Dispatcher::new();
    dispatcher.register(ProviderId::Core, core_handler());
    let request = Request {
        header: header(Opcode::Ping, ProviderId::Core),
        body: vec![1, 2, 3],
    };
    let response = dispatcher.dispatch(request, None);
    assert_eq!(response.status, ResponseStatus::DeserializingBodyFailed);
    assert!(response.body.is_empty());
}

#[test]
fn wrong_provider_response_has_empty_body() {
    // A core handler reachable under the PKCS#11 provider id: the request
    // header names Pkcs11, the handler insists it is Core.
    let core = CoreProvider {
        version_min: 0,
        version_maj: 1,
        providers: Vec::new(),
    };
    let handler = BackEndHandler {
        provider: Provider::Core(core),
        converter: Converter::new(),
        provider_id: ProviderId::Core,
        content_type: BodyType::Canonical,
        accept_type: BodyType::Canonical,
    };
    let mut dispatcher = Dispatcher::new();
    dispatcher.register(ProviderId::Pkcs11, handler);
    let request = Request {
        header: header(Opcode::Ping, ProviderId::Pkcs11),
        body: Vec::new(),
    };
    let response = dispatcher.dispatch(request, None);
    assert_eq!(response.status, ResponseStatus::WrongProviderId);
    assert!(response.body.is_empty());
}

#[test]
fn generate_random_is_unsupported_not_unauthenticated() {
    // The generate-random opcode needs no application name: with none
    // given, the answer is the provider's refusal, not an authentication
    // failure.
    let core = CoreProvider {
        version_min: 0,
        version_maj: 1,
        providers: Vec::new(),
    };
    let mut handler = BackEndHandler {
        provider: Provider::Core(core),
        converter: Converter::new(),
        provider_id: ProviderId::Pkcs11,
        content_type: BodyType::Canonical,
        accept_type: BodyType::Canonical,
    };
    let body = operation_to_body(&NativeOperation::PsaGenerateRandom { size: 16 }).unwrap();
    let request = Request {
        header: header(Opcode::PsaGenerateRandom, ProviderId::Pkcs11),
        body,
    };
    let response = handler.execute_request(request, None);
    assert_eq!(response.status, ResponseStatus::PsaErrorNotSupported);
    assert!(response.body.is_empty());
}
