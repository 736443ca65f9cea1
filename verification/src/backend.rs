//! The back-end handler: the last step from an external request to an
//! internal provider call. It assesses whether a request is for it
//! (`is_capable`), and turns a request into a response by decoding the body
//! into an operation, routing it to its provider, and encoding the tagged
//! result back (`execute_request`).

use vstd::prelude::*;
use crate::requests::{
    Opcode, ProviderId, BodyType, ResponseStatus, ApplicationName, Request, RequestHeader, Response,
    spec_is_core_opcode, is_core_opcode, spec_opcode_requires_app, opcode_requires_app,
};
use crate::operations::{
    NativeOperation, NativeResult, ResultView, result_view_opcode, OpPing,
};
use crate::codec::{Converter, spec_body_to_operation, spec_result_to_body, result_encodable};
use crate::core_provider::{CoreProvider, spec_core_opcodes};
use crate::pkcs11_provider::{
    Pkcs11Provider, p11_triple, spec_pkcs11_opcodes, supported_generate_attributes,
    supported_import_attributes,
};
use crate::key_info::KeyInfoView;
use crate::key_metadata::id_of_bytes;
use crate::codec::enc_u32;
use crate::der::spec_rsa_der_decode;
use crate::operations::OpView;

verus! {

/// The closed set of providers a handler can be configured with. The
/// operation set is total over it: a provider answers every operation, if
/// only with `PsaErrorNotSupported`, so adding an opcode fails to compile
/// until every dispatch arm acknowledges it.
pub enum Provider {
    Core(CoreProvider),
    Pkcs11(Pkcs11Provider),
}

/// What every provider method relies on: the PKCS#11 provider's joint
/// store/id invariant, with headroom in its login counter and id space.
pub open spec fn provider_ready(p: Provider) -> bool {
    match p {
        Provider::Core(..) => true,
        Provider::Pkcs11(pp) => pp.wf() && pp.counter() < u64::MAX && pp.ids_view().len()
            < u32::MAX,
    }
}

/// The invariant every operation preserves.
pub open spec fn provider_wf(p: Provider) -> bool {
    match p {
        Provider::Core(..) => true,
        Provider::Pkcs11(pp) => pp.wf(),
    }
}

/// Readiness with room for one more operation: an operation may raise the
/// login counter and the id list by one each, so this margin guarantees the
/// provider is still ready afterwards.
pub open spec fn provider_has_headroom(p: Provider) -> bool {
    match p {
        Provider::Core(..) => true,
        Provider::Pkcs11(pp) => pp.wf() && pp.counter() + 1 < u64::MAX && pp.ids_view().len() + 1
            < u32::MAX,
    }
}

/// The PKCS#11 provider's store, where the provider is that one.
pub open spec fn p11_store(p: Provider) -> Map<
    crate::key_info::KeyTripleView,
    crate::key_info::KeyInfoView,
> {
    match p {
        Provider::Pkcs11(pp) => pp.store_view(),
        Provider::Core(..) => Map::empty(),
    }
}

/// The PKCS#11 provider's local-id list, where the provider is that one.
pub open spec fn p11_ids(p: Provider) -> Seq<u32> {
    match p {
        Provider::Pkcs11(pp) => pp.ids_view(),
        Provider::Core(..) => Seq::empty(),
    }
}

/// What `is_capable` answers: the opcode class must match the provider
/// class, then provider id, content type and accept type must each match
/// the handler's, in that order.
pub open spec fn spec_is_capable(
    provider_id: ProviderId,
    content_type: BodyType,
    accept_type: BodyType,
    header: RequestHeader,
) -> Result<(), ResponseStatus> {
    if spec_is_core_opcode(header.opcode) != (provider_id == ProviderId::Core) {
        Err(ResponseStatus::PsaErrorNotSupported)
    } else if header.provider != provider_id {
        Err(ResponseStatus::WrongProviderId)
    } else if header.content_type != content_type {
        Err(ResponseStatus::ContentTypeNotSupported)
    } else if header.accept_type != accept_type {
        Err(ResponseStatus::AcceptTypeNotSupported)
    } else {
        Ok(())
    }
}

/// The capability check is total and exhaustive: for every handler
/// configuration and every header it answers exactly one of five statuses.
pub proof fn lemma_is_capable_total(
    provider_id: ProviderId,
    content_type: BodyType,
    accept_type: BodyType,
    header: RequestHeader,
)
    ensures
        spec_is_capable(provider_id, content_type, accept_type, header) matches Err(e) ==> (e
            == ResponseStatus::PsaErrorNotSupported || e == ResponseStatus::WrongProviderId || e
            == ResponseStatus::ContentTypeNotSupported || e
            == ResponseStatus::AcceptTypeNotSupported),
{
}

/// Opcode-provider compatibility: a core opcode aimed at a non-core
/// provider, or a non-core opcode aimed at the core provider, is refused as
/// unsupported before anything else is looked at.
pub proof fn lemma_opcode_provider_compatibility(
    provider_id: ProviderId,
    content_type: BodyType,
    accept_type: BodyType,
    header: RequestHeader,
)
    ensures
        spec_is_core_opcode(header.opcode) != (provider_id == ProviderId::Core)
            ==> spec_is_capable(provider_id, content_type, accept_type, header) == Err::<
            (),
            ResponseStatus,
        >(ResponseStatus::PsaErrorNotSupported),
{
}

/// Back-end handler: one provider, one body codec, and the provider id and
/// body types it accepts.
pub struct BackEndHandler {
    pub provider: Provider,
    pub converter: Converter,
    pub provider_id: ProviderId,
    pub content_type: BodyType,
    pub accept_type: BodyType,
}

impl BackEndHandler {
    /// Converts an operation result into a response carrying its encoding,
    /// or the encoding failure as the status.
    fn result_to_response(&self, result: &NativeResult, header: RequestHeader) -> (r: Response)
        ensures
            r.header == header,
            result_view_opcode(result@) == crate::operations::spec_opcode_of_result(*result),
            result_encodable(result@) ==> r.status == ResponseStatus::Success && r.body@
                == spec_result_to_body(result@),
            !result_encodable(result@) ==> r.status == ResponseStatus::SerializingBodyFailed
                && r.body@ == Seq::<u8>::empty(),
    {
        proof {
            crate::operations::lemma_result_opcode_of_view(*result);
        }
        match self.converter.result_to_body(result) {
            Result::Ok(body) => Response { header, status: ResponseStatus::Success, body },
            Result::Err(status) => Response::from_request_header(header, status),
        }
    }

    /// Assesses whether this handler-provider pair can handle a request, in
    /// the fixed order: opcode class, provider id, content type, accept
    /// type.
    pub fn is_capable(&self, request: &Request) -> (r: Result<(), ResponseStatus>)
        ensures
            r == spec_is_capable(
                self.provider_id,
                self.content_type,
                self.accept_type,
                request.header,
            ),
    {
        let header = &request.header;
        if is_core_opcode(header.opcode) != (self.provider_id == ProviderId::Core) {
            Err(ResponseStatus::PsaErrorNotSupported)
        } else if header.provider != self.provider_id {
            Err(ResponseStatus::WrongProviderId)
        } else if header.content_type != self.content_type {
            Err(ResponseStatus::ContentTypeNotSupported)
        } else if header.accept_type != self.accept_type {
            Err(ResponseStatus::AcceptTypeNotSupported)
        } else {
            Ok(())
        }
    }

    /// Decodes the request body into an operation, routes it to the
    /// provider, and encodes the tagged result into the response body. Any
    /// decode, authentication, provider, or encode failure becomes a
    /// response whose header echoes the request's, whose status carries the
    /// failure, and whose body is empty. A tenant-scoped operation without
    /// an application name is refused before the provider is touched.
    #[verifier::spinoff_prover]
    #[verifier::rlimit(100)]
    pub fn execute_request(&mut self, request: Request, app_name: Option<ApplicationName>) -> (r:
        Response)
        requires
            provider_ready(old(self).provider),
        ensures
            provider_wf(final(self).provider),
            final(self).provider_id == old(self).provider_id,
            final(self).content_type == old(self).content_type,
            final(self).accept_type == old(self).accept_type,
            r.header == request.header,
            r.status != ResponseStatus::Success ==> r.body@ == Seq::<u8>::empty(),
            spec_body_to_operation(request.body@, request.header.opcode) is None ==> r.status
                == ResponseStatus::DeserializingBodyFailed && final(self).provider == old(
                self,
            ).provider,
            (spec_body_to_operation(request.body@, request.header.opcode) is Some
                && spec_opcode_requires_app(request.header.opcode) && app_name is None) ==> r.status
                == ResponseStatus::NotAuthenticated && final(self).provider == old(self).provider,
            r.status == ResponseStatus::Success ==> exists|res: ResultView|
                result_view_opcode(res) == request.header.opcode && r.body@
                    == #[trigger] spec_result_to_body(res),
            request.header.opcode == Opcode::Ping ==> spec_body_to_operation(
                request.body@,
                request.header.opcode,
            ) is Some ==> (old(self).provider matches Provider::Core(c) ==> r.status
                == ResponseStatus::Success && r.body@ == spec_result_to_body(
                (ResultView::Ping {
                    supp_version_maj: c.version_maj,
                    supp_version_min: c.version_min,
                }),
            )),
            provider_has_headroom(old(self).provider) ==> provider_ready(final(self).provider),
            request.header.opcode == Opcode::ListOpcodes ==> spec_body_to_operation(
                request.body@,
                request.header.opcode,
            ) is Some ==> (old(self).provider matches Provider::Core(..) ==> r.status
                == ResponseStatus::Success && r.body@ == spec_result_to_body(
                (ResultView::ListOpcodes { opcodes: spec_core_opcodes() }),
            )),
            request.header.opcode == Opcode::ListOpcodes ==> spec_body_to_operation(
                request.body@,
                request.header.opcode,
            ) is Some ==> (old(self).provider matches Provider::Pkcs11(..) ==> r.status
                == ResponseStatus::Success && r.body@ == spec_result_to_body(
                (ResultView::ListOpcodes { opcodes: spec_pkcs11_opcodes() }),
            )),
            request.header.opcode == Opcode::ListProviders ==> spec_body_to_operation(
                request.body@,
                request.header.opcode,
            ) is Some ==> (old(self).provider matches Provider::Core(c) ==> ((r.status
                == ResponseStatus::Success && r.body@ == spec_result_to_body(
                (ResultView::ListProviders {
                    providers: c.providers@.map_values(|p: crate::operations::ProviderInfo| p@),
                }),
            )) || (r.status == ResponseStatus::SerializingBodyFailed && !result_encodable(
                (ResultView::ListProviders {
                    providers: c.providers@.map_values(|p: crate::operations::ProviderInfo| p@),
                }),
            )))),
            spec_body_to_operation(request.body@, request.header.opcode) is Some && (
            request.header.opcode == Opcode::PsaGenerateRandom || request.header.opcode
                == Opcode::ListAuthenticators) ==> r.status == ResponseStatus::PsaErrorNotSupported
                && final(self).provider == old(self).provider,
            spec_body_to_operation(request.body@, request.header.opcode) is Some && app_name
                is Some && (request.header.opcode == Opcode::ListKeys || request.header.opcode
                == Opcode::PsaExportKey || request.header.opcode == Opcode::PsaAsymmetricEncrypt
                || request.header.opcode == Opcode::PsaAsymmetricDecrypt || request.header.opcode
                == Opcode::PsaAeadEncrypt || request.header.opcode == Opcode::PsaAeadDecrypt
                || request.header.opcode == Opcode::PsaRawKeyAgreement || request.header.opcode
                == Opcode::PsaHashCompute || request.header.opcode == Opcode::PsaHashCompare)
                ==> r.status == ResponseStatus::PsaErrorNotSupported && final(self).provider == old(
                self,
            ).provider,
            spec_body_to_operation(request.body@, request.header.opcode) is Some && app_name
                is Some && (request.header.opcode == Opcode::PsaGenerateKey
                || request.header.opcode == Opcode::PsaImportKey || request.header.opcode
                == Opcode::PsaExportPublicKey || request.header.opcode == Opcode::PsaDestroyKey
                || request.header.opcode == Opcode::PsaSignHash || request.header.opcode
                == Opcode::PsaVerifyHash) ==> (old(self).provider matches Provider::Core(..)
                ==> r.status == ResponseStatus::PsaErrorNotSupported && final(self).provider == old(
                self,
            ).provider),
            old(self).provider matches Provider::Pkcs11(pp) ==> (app_name matches Some(app) ==> (
            spec_body_to_operation(request.body@, request.header.opcode) matches Some(
                OpView::PsaGenerateKey { key_name, attributes },
            ) ==> {
                &&& (!supported_generate_attributes(attributes) ==> r.status
                    == ResponseStatus::UnsupportedOperation && p11_store(final(self).provider)
                    == pp.store_view() && p11_ids(final(self).provider) == pp.ids_view())
                &&& (supported_generate_attributes(attributes) && pp.store_view().contains_key(
                    p11_triple(app@, key_name),
                ) ==> r.status == ResponseStatus::KeyAlreadyExists && p11_store(
                    final(self).provider,
                ) == pp.store_view() && p11_ids(final(self).provider) == pp.ids_view())
                &&& (supported_generate_attributes(attributes) && !pp.store_view().contains_key(
                    p11_triple(app@, key_name),
                ) ==> ((r.status == ResponseStatus::Success && r.body@ == spec_result_to_body(
                    ResultView::PsaGenerateKey,
                ) && (exists|id: u32|
                    !pp.ids_view().contains(id) && p11_store(final(self).provider)
                        == pp.store_view().insert(
                        p11_triple(app@, key_name),
                        (KeyInfoView { id: enc_u32(id), attributes }),
                    ))) || ((r.status == ResponseStatus::PsaErrorCommunicationFailure || r.status
                    == ResponseStatus::PsaErrorHardwareFailure) && p11_store(final(self).provider)
                    == pp.store_view() && (forall|x: u32|
                    p11_ids(final(self).provider).contains(x) <==> pp.ids_view().contains(x)))))
            })),
            old(self).provider matches Provider::Pkcs11(pp) ==> (app_name matches Some(app) ==> (
            spec_body_to_operation(request.body@, request.header.opcode) matches Some(
                OpView::PsaImportKey { key_name, attributes, data },
            ) ==> {
                &&& (!supported_import_attributes(attributes) ==> r.status
                    == ResponseStatus::UnsupportedOperation && p11_store(final(self).provider)
                    == pp.store_view() && p11_ids(final(self).provider) == pp.ids_view())
                &&& (supported_import_attributes(attributes) && spec_rsa_der_decode(data) is None
                    ==> r.status == ResponseStatus::PsaErrorInvalidArgument && p11_store(
                    final(self).provider,
                ) == pp.store_view() && p11_ids(final(self).provider) == pp.ids_view())
                &&& (supported_import_attributes(attributes) && spec_rsa_der_decode(data) is Some
                    && pp.store_view().contains_key(p11_triple(app@, key_name)) ==> r.status
                    == ResponseStatus::KeyAlreadyExists && p11_store(final(self).provider)
                    == pp.store_view() && p11_ids(final(self).provider) == pp.ids_view())
                &&& (supported_import_attributes(attributes) && spec_rsa_der_decode(data) is Some
                    && !pp.store_view().contains_key(p11_triple(app@, key_name)) ==> ((r.status
                    == ResponseStatus::Success && r.body@ == spec_result_to_body(
                    ResultView::PsaImportKey,
                ) && (exists|id: u32|
                    !pp.ids_view().contains(id) && p11_store(final(self).provider)
                        == pp.store_view().insert(
                        p11_triple(app@, key_name),
                        (KeyInfoView { id: enc_u32(id), attributes }),
                    ))) || ((r.status == ResponseStatus::PsaErrorCommunicationFailure || r.status
                    == ResponseStatus::PsaErrorHardwareFailure) && p11_store(final(self).provider)
                    == pp.store_view() && (forall|x: u32|
                    p11_ids(final(self).provider).contains(x) <==> pp.ids_view().contains(x)))))
            })),
            old(self).provider matches Provider::Pkcs11(pp) ==> (app_name matches Some(app) ==> (
            spec_body_to_operation(request.body@, request.header.opcode) matches Some(
                OpView::PsaDestroyKey { key_name },
            ) ==> {
                &&& (!pp.store_view().contains_key(p11_triple(app@, key_name)) ==> r.status
                    == ResponseStatus::PsaErrorDoesNotExist && p11_store(final(self).provider)
                    == pp.store_view() && p11_ids(final(self).provider) == pp.ids_view())
                &&& (pp.store_view().contains_key(p11_triple(app@, key_name)) && pp.store_view()[
                p11_triple(app@, key_name)].id.len() != 4 ==> r.status
                    == ResponseStatus::KeyInfoManagerError && p11_store(final(self).provider)
                    == pp.store_view() && p11_ids(final(self).provider) == pp.ids_view())
                &&& (r.status == ResponseStatus::Success ==> r.body@ == spec_result_to_body(
                    ResultView::PsaDestroyKey,
                ) && pp.store_view().contains_key(p11_triple(app@, key_name)) && p11_store(
                    final(self).provider,
                ) == pp.store_view().remove(p11_triple(app@, key_name)) && (forall|x: u32|
                    p11_ids(final(self).provider).contains(x) <==> (pp.ids_view().contains(x) && x
                        != id_of_bytes(pp.store_view()[p11_triple(app@, key_name)].id))))
                &&& (r.status != ResponseStatus::Success ==> p11_store(final(self).provider)
                    == pp.store_view() && p11_ids(final(self).provider) == pp.ids_view())
            })),
            old(self).provider matches Provider::Pkcs11(pp) ==> (app_name matches Some(..) ==> (
            request.header.opcode == Opcode::PsaExportPublicKey || request.header.opcode
                == Opcode::PsaSignHash || request.header.opcode == Opcode::PsaVerifyHash
                ==> p11_store(final(self).provider) == pp.store_view() && p11_ids(
                final(self).provider,
            ) == pp.ids_view())),
            old(self).provider matches Provider::Pkcs11(pp) ==> (app_name matches Some(app) ==> (
            spec_body_to_operation(request.body@, request.header.opcode) matches Some(
                OpView::PsaExportPublicKey { key_name },
            ) ==> {
                &&& (!pp.store_view().contains_key(p11_triple(app@, key_name)) ==> r.status
                    == ResponseStatus::PsaErrorDoesNotExist)
                &&& (pp.store_view().contains_key(p11_triple(app@, key_name)) && pp.store_view()[
                p11_triple(app@, key_name)].id.len() != 4 ==> r.status
                    == ResponseStatus::KeyInfoManagerError)
            })),
            old(self).provider matches Provider::Pkcs11(pp) ==> (app_name matches Some(app) ==> (
            spec_body_to_operation(request.body@, request.header.opcode) matches Some(
                OpView::PsaSignHash { key_name, hash },
            ) ==> {
                &&& (!pp.store_view().contains_key(p11_triple(app@, key_name)) ==> r.status
                    == ResponseStatus::PsaErrorDoesNotExist)
                &&& (pp.store_view().contains_key(p11_triple(app@, key_name)) && pp.store_view()[
                p11_triple(app@, key_name)].id.len() != 4 ==> r.status
                    == ResponseStatus::KeyInfoManagerError)
            })),
            old(self).provider matches Provider::Pkcs11(pp) ==> (app_name matches Some(app) ==> (
            spec_body_to_operation(request.body@, request.header.opcode) matches Some(
                OpView::PsaVerifyHash { key_name, hash, signature },
            ) ==> {
                &&& (!pp.store_view().contains_key(p11_triple(app@, key_name)) ==> r.status
                    == ResponseStatus::PsaErrorDoesNotExist)
                &&& (pp.store_view().contains_key(p11_triple(app@, key_name)) && pp.store_view()[
                p11_triple(app@, key_name)].id.len() != 4 ==> r.status
                    == ResponseStatus::KeyInfoManagerError)
            })),
    {
        let header = request.header;
        let opcode = request.header.opcode;
        let op = match self.converter.body_to_operation(&request.body, opcode) {
            Result::Ok(op) => op,
            Result::Err(status) => {
                return Response::from_request_header(header, status);
            },
        };
        if opcode_requires_app(opcode) && app_name.is_none() {
            return Response::from_request_header(header, ResponseStatus::NotAuthenticated);
        }
        match op {
            NativeOperation::Ping(ping_op) => {
                let result = match &self.provider {
                    Provider::Core(c) => c.ping(ping_op),
                    Provider::Pkcs11(..) => Err(ResponseStatus::PsaErrorNotSupported),
                };
                match result {
                    Result::Ok(res) => self.result_to_response(&NativeResult::Ping(res), header),
                    Result::Err(status) => Response::from_request_header(header, status),
                }
            },
            NativeOperation::ListProviders => {
                let result = match &self.provider {
                    Provider::Core(c) => c.list_providers(),
                    Provider::Pkcs11(..) => Err(ResponseStatus::PsaErrorNotSupported),
                };
                match result {
                    Result::Ok(providers) => self.result_to_response(
                        &NativeResult::ListProviders { providers },
                        header,
                    ),
                    Result::Err(status) => Response::from_request_header(header, status),
                }
            },
            NativeOperation::ListOpcodes => {
                let result = match &self.provider {
                    Provider::Core(c) => c.list_opcodes(),
                    Provider::Pkcs11(p) => p.list_opcodes(),
                };
                match result {
                    Result::Ok(opcodes) => self.result_to_response(
                        &NativeResult::ListOpcodes { opcodes },
                        header,
                    ),
                    Result::Err(status) => Response::from_request_header(header, status),
                }
            },
            NativeOperation::ListAuthenticators => {
                Response::from_request_header(header, ResponseStatus::PsaErrorNotSupported)
            },
            NativeOperation::ListKeys => {
                Response::from_request_header(header, ResponseStatus::PsaErrorNotSupported)
            },
            NativeOperation::PsaGenerateKey { key_name, attributes } => {
                let app = match app_name {
                    Option::Some(a) => a,
                    Option::None => {
                        return Response::from_request_header(
                            header,
                            ResponseStatus::NotAuthenticated,
                        );
                    },
                };
                let result = match &mut self.provider {
                    Provider::Core(..) => Err(ResponseStatus::PsaErrorNotSupported),
                    Provider::Pkcs11(p) => p.psa_generate_key(&app, key_name, attributes),
                };
                match result {
                    Result::Ok(..) => self.result_to_response(
                        &NativeResult::PsaGenerateKey,
                        header,
                    ),
                    Result::Err(status) => Response::from_request_header(header, status),
                }
            },
            NativeOperation::PsaImportKey { key_name, attributes, data } => {
                let app = match app_name {
                    Option::Some(a) => a,
                    Option::None => {
                        return Response::from_request_header(
                            header,
                            ResponseStatus::NotAuthenticated,
                        );
                    },
                };
                let result = match &mut self.provider {
                    Provider::Core(..) => Err(ResponseStatus::PsaErrorNotSupported),
                    Provider::Pkcs11(p) => p.psa_import_key(&app, key_name, attributes, data),
                };
                match result {
                    Result::Ok(..) => self.result_to_response(&NativeResult::PsaImportKey, header),
                    Result::Err(status) => Response::from_request_header(header, status),
                }
            },
            NativeOperation::PsaExportPublicKey { key_name } => {
                let app = match app_name {
                    Option::Some(a) => a,
                    Option::None => {
                        return Response::from_request_header(
                            header,
                            ResponseStatus::NotAuthenticated,
                        );
                    },
                };
                let result = match &mut self.provider {
                    Provider::Core(..) => Err(ResponseStatus::PsaErrorNotSupported),
                    Provider::Pkcs11(p) => p.psa_export_public_key(&app, key_name),
                };
                match result {
                    Result::Ok(data) => self.result_to_response(
                        &NativeResult::PsaExportPublicKey { data },
                        header,
                    ),
                    Result::Err(status) => Response::from_request_header(header, status),
                }
            },
            NativeOperation::PsaExportKey { .. } => {
                Response::from_request_header(header, ResponseStatus::PsaErrorNotSupported)
            },
            NativeOperation::PsaDestroyKey { key_name } => {
                let app = match app_name {
                    Option::Some(a) => a,
                    Option::None => {
                        return Response::from_request_header(
                            header,
                            ResponseStatus::NotAuthenticated,
                        );
                    },
                };
                let result = match &mut self.provider {
                    Provider::Core(..) => Err(ResponseStatus::PsaErrorNotSupported),
                    Provider::Pkcs11(p) => p.psa_destroy_key(&app, key_name),
                };
                match result {
                    Result::Ok(..) => self.result_to_response(&NativeResult::PsaDestroyKey, header),
                    Result::Err(status) => Response::from_request_header(header, status),
                }
            },
            NativeOperation::PsaSignHash { key_name, hash } => {
                let app = match app_name {
                    Option::Some(a) => a,
                    Option::None => {
                        return Response::from_request_header(
                            header,
                            ResponseStatus::NotAuthenticated,
                        );
                    },
                };
                let result = match &mut self.provider {
                    Provider::Core(..) => Err(ResponseStatus::PsaErrorNotSupported),
                    Provider::Pkcs11(p) => p.psa_sign_hash(&app, key_name, hash),
                };
                match result {
                    Result::Ok(signature) => self.result_to_response(
                        &NativeResult::PsaSignHash { signature },
                        header,
                    ),
                    Result::Err(status) => Response::from_request_header(header, status),
                }
            },
            NativeOperation::PsaVerifyHash { key_name, hash, signature } => {
                let app = match app_name {
                    Option::Some(a) => a,
                    Option::None => {
                        return Response::from_request_header(
                            header,
                            ResponseStatus::NotAuthenticated,
                        );
                    },
                };
                let result = match &mut self.provider {
                    Provider::Core(..) => Err(ResponseStatus::PsaErrorNotSupported),
                    Provider::Pkcs11(p) => p.psa_verify_hash(&app, key_name, hash, signature),
                };
                match result {
                    Result::Ok(..) => self.result_to_response(&NativeResult::PsaVerifyHash, header),
                    Result::Err(status) => Response::from_request_header(header, status),
                }
            },
            NativeOperation::PsaAsymmetricEncrypt { .. } => {
                Response::from_request_header(header, ResponseStatus::PsaErrorNotSupported)
            },
            NativeOperation::PsaAsymmetricDecrypt { .. } => {
                Response::from_request_header(header, ResponseStatus::PsaErrorNotSupported)
            },
            NativeOperation::PsaAeadEncrypt { .. } => {
                Response::from_request_header(header, ResponseStatus::PsaErrorNotSupported)
            },
            NativeOperation::PsaAeadDecrypt { .. } => {
                Response::from_request_header(header, ResponseStatus::PsaErrorNotSupported)
            },
            NativeOperation::PsaRawKeyAgreement { .. } => {
                Response::from_request_header(header, ResponseStatus::PsaErrorNotSupported)
            },
            NativeOperation::PsaHashCompute { .. } => {
                Response::from_request_header(header, ResponseStatus::PsaErrorNotSupported)
            },
            NativeOperation::PsaHashCompare { .. } => {
                Response::from_request_header(header, ResponseStatus::PsaErrorNotSupported)
            },
            NativeOperation::PsaGenerateRandom { .. } => {
                Response::from_request_header(header, ResponseStatus::PsaErrorNotSupported)
            },
        }
    }
}

/// Builder for a back-end handler: every field is required.
pub struct BackEndHandlerBuilder {
    pub provider: Option<Provider>,
    pub converter: Option<Converter>,
    pub provider_id: Option<ProviderId>,
    pub content_type: Option<BodyType>,
    pub accept_type: Option<BodyType>,
}

impl BackEndHandlerBuilder {
    pub fn new() -> (r: BackEndHandlerBuilder)
        ensures
            r.provider is None,
            r.converter is None,
            r.provider_id is None,
            r.content_type is None,
            r.accept_type is None,
    {
        BackEndHandlerBuilder {
            provider: None,
            converter: None,
            provider_id: None,
            content_type: None,
            accept_type: None,
        }
    }

    pub fn with_provider(self, provider: Provider) -> (r: BackEndHandlerBuilder)
        ensures
            r.provider == Some(provider),
            r.converter == self.converter,
            r.provider_id == self.provider_id,
            r.content_type == self.content_type,
            r.accept_type == self.accept_type,
    {
        BackEndHandlerBuilder {
            provider: Some(provider),
            converter: self.converter,
            provider_id: self.provider_id,
            content_type: self.content_type,
            accept_type: self.accept_type,
        }
    }

    pub fn with_converter(self, converter: Converter) -> (r: BackEndHandlerBuilder)
        ensures
            r.converter == Some(converter),
            r.provider == self.provider,
            r.provider_id == self.provider_id,
            r.content_type == self.content_type,
            r.accept_type == self.accept_type,
    {
        BackEndHandlerBuilder {
            provider: self.provider,
            converter: Some(converter),
            provider_id: self.provider_id,
            content_type: self.content_type,
            accept_type: self.accept_type,
        }
    }

    pub fn with_provider_id(self, provider_id: ProviderId) -> (r: BackEndHandlerBuilder)
        ensures
            r.provider_id == Some(provider_id),
            r.provider == self.provider,
            r.converter == self.converter,
            r.content_type == self.content_type,
            r.accept_type == self.accept_type,
    {
        BackEndHandlerBuilder {
            provider: self.provider,
            converter: self.converter,
            provider_id: Some(provider_id),
            content_type: self.content_type,
            accept_type: self.accept_type,
        }
    }

    pub fn with_content_type(self, content_type: BodyType) -> (r: BackEndHandlerBuilder)
        ensures
            r.content_type == Some(content_type),
            r.provider == self.provider,
            r.converter == self.converter,
            r.provider_id == self.provider_id,
            r.accept_type == self.accept_type,
    {
        BackEndHandlerBuilder {
            provider: self.provider,
            converter: self.converter,
            provider_id: self.provider_id,
            content_type: Some(content_type),
            accept_type: self.accept_type,
        }
    }

    pub fn with_accept_type(self, accept_type: BodyType) -> (r: BackEndHandlerBuilder)
        ensures
            r.accept_type == Some(accept_type),
            r.provider == self.provider,
            r.converter == self.converter,
            r.provider_id == self.provider_id,
            r.content_type == self.content_type,
    {
        BackEndHandlerBuilder {
            provider: self.provider,
            converter: self.converter,
            provider_id: self.provider_id,
            content_type: self.content_type,
            accept_type: Some(accept_type),
        }
    }

    /// Builds the handler; every field is required.
    pub fn build(self) -> (r: Option<BackEndHandler>)
        ensures
            match r {
                Option::Some(h) => self.provider is Some && h.provider == self.provider.unwrap()
                    && self.provider_id is Some && h.provider_id == self.provider_id.unwrap()
                    && self.content_type is Some && h.content_type == self.content_type.unwrap()
                    && self.accept_type is Some && h.accept_type == self.accept_type.unwrap(),
                Option::None => self.provider is None || self.converter is None
                    || self.provider_id is None || self.content_type is None || self.accept_type
                    is None,
            },
    {
        let provider = match self.provider {
            Option::Some(p) => p,
            Option::None => {
                return None;
            },
        };
        let converter = match self.converter {
            Option::Some(c) => c,
            Option::None => {
                return None;
            },
        };
        let provider_id = match self.provider_id {
            Option::Some(p) => p,
            Option::None => {
                return None;
            },
        };
        let content_type = match self.content_type {
            Option::Some(c) => c,
            Option::None => {
                return None;
            },
        };
        let accept_type = match self.accept_type {
            Option::Some(a) => a,
            Option::None => {
                return None;
            },
        };
        Some(BackEndHandler { provider, converter, provider_id, content_type, accept_type })
    }
}

} // verus!
