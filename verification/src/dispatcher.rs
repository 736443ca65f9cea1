//! The dispatcher: owns one back-end handler per provider id and routes each
//! request to the handler whose provider id matches the header's, after the
//! handler itself confirms capability. It is stateless beyond the handler
//! table.

use vstd::prelude::*;
use crate::requests::{
    Opcode, ProviderId, ResponseStatus, ApplicationName, Request, Response,
    spec_opcode_requires_app,
};
use crate::codec::{spec_body_to_operation, spec_result_to_body, result_encodable, enc_u32};
use crate::backend::{
    BackEndHandler, Provider, provider_ready, provider_wf, provider_has_headroom, p11_store,
    p11_ids, spec_is_capable,
};
use crate::core_provider::spec_core_opcodes;
use crate::pkcs11_provider::{
    p11_triple, spec_pkcs11_opcodes, supported_generate_attributes, supported_import_attributes,
};
use crate::key_info::KeyInfoView;
use crate::key_metadata::id_of_bytes;
use crate::der::spec_rsa_der_decode;
use crate::operations::{OpView, ResultView};

verus! {

/// The handler table: at most one handler per provider id.
pub struct Dispatcher {
    pub core_handler: Option<BackEndHandler>,
    pub pkcs11_handler: Option<BackEndHandler>,
}

impl Dispatcher {
    /// The handler registered for a provider id, if any.
    pub open spec fn handler_for(&self, id: ProviderId) -> Option<BackEndHandler> {
        match id {
            ProviderId::Core => self.core_handler,
            ProviderId::Pkcs11 => self.pkcs11_handler,
        }
    }

    /// Every registered handler's provider is ready for an operation.
    pub open spec fn ready(&self) -> bool {
        &&& (self.core_handler matches Some(h) ==> provider_ready(h.provider))
        &&& (self.pkcs11_handler matches Some(h) ==> provider_ready(h.provider))
    }

    /// Readiness with room for one more operation on every handler, so that
    /// the table is still ready after a dispatch.
    pub open spec fn has_headroom(&self) -> bool {
        &&& (self.core_handler matches Some(h) ==> provider_has_headroom(h.provider))
        &&& (self.pkcs11_handler matches Some(h) ==> provider_has_headroom(h.provider))
    }

    /// A table with no handlers registered.
    pub fn new() -> (r: Dispatcher)
        ensures
            r.core_handler is None,
            r.pkcs11_handler is None,
    {
        Dispatcher { core_handler: None, pkcs11_handler: None }
    }

    /// Registers a handler under a provider id, replacing any previous one.
    pub fn register(&mut self, id: ProviderId, handler: BackEndHandler)
        ensures
            final(self).handler_for(id) == Some(handler),
            forall|other: ProviderId|
                other != id ==> #[trigger] final(self).handler_for(other) == old(self).handler_for(
                    other,
                ),
    {
        match id {
            ProviderId::Core => {
                self.core_handler = Some(handler);
            },
            ProviderId::Pkcs11 => {
                self.pkcs11_handler = Some(handler);
            },
        }
    }

    /// Routes a request: absent handler means `ProviderNotRegistered`; a
    /// capability failure is returned as the response status; otherwise the
    /// handler executes the request. Every response echoes the request
    /// header, and a tenant-scoped request without an application name that
    /// reaches a capable handler is refused without touching any provider.
    pub fn dispatch(&mut self, request: Request, app_name: Option<ApplicationName>) -> (r:
        Response)
        requires
            old(self).ready(),
        ensures
            r.header == request.header,
            (final(self).core_handler matches Some(h) ==> provider_wf(h.provider)),
            (final(self).pkcs11_handler matches Some(h) ==> provider_wf(h.provider)),
            old(self).handler_for(request.header.provider) is None ==> r.status
                == ResponseStatus::ProviderNotRegistered && *final(self) == *old(self),
            old(self).has_headroom() ==> final(self).ready(),
            forall|other: ProviderId|
                other != request.header.provider ==> #[trigger] final(self).handler_for(other)
                    == old(self).handler_for(other),
            old(self).handler_for(request.header.provider) matches Some(h) ==> match spec_is_capable(
                h.provider_id,
                h.content_type,
                h.accept_type,
                request.header,
            ) {
                Result::Err(e) => r.status == e && *final(self) == *old(self),
                Result::Ok(..) => {
                    &&& ((spec_body_to_operation(
                        request.body@,
                        request.header.opcode,
                    ) is Some && spec_opcode_requires_app(request.header.opcode) && app_name
                        is None) ==> r.status == ResponseStatus::NotAuthenticated && *final(self)
                        == *old(self))
                    &&& (spec_body_to_operation(request.body@, request.header.opcode) is None
                        ==> r.status == ResponseStatus::DeserializingBodyFailed && *final(self)
                        == *old(self))
                    &&& (r.status != ResponseStatus::Success ==> r.body@ == Seq::<u8>::empty())
                    &&& (request.header.opcode == Opcode::Ping ==> spec_body_to_operation(
                        request.body@,
                        request.header.opcode,
                    ) is Some ==> (h.provider matches Provider::Core(c) ==> r.status
                        == ResponseStatus::Success && r.body@ == spec_result_to_body(
                        (ResultView::Ping {
                            supp_version_maj: c.version_maj,
                            supp_version_min: c.version_min,
                        }),
                    )))
                    &&& (request.header.opcode == Opcode::ListOpcodes ==> spec_body_to_operation(
                        request.body@,
                        request.header.opcode,
                    ) is Some ==> (h.provider matches Provider::Core(..) ==> r.status
                        == ResponseStatus::Success && r.body@ == spec_result_to_body(
                        (ResultView::ListOpcodes { opcodes: spec_core_opcodes() }),
                    )))
                    &&& (request.header.opcode == Opcode::ListOpcodes ==> spec_body_to_operation(
                        request.body@,
                        request.header.opcode,
                    ) is Some ==> (h.provider matches Provider::Pkcs11(..) ==> r.status
                        == ResponseStatus::Success && r.body@ == spec_result_to_body(
                        (ResultView::ListOpcodes { opcodes: spec_pkcs11_opcodes() }),
                    )))
                    &&& (request.header.opcode == Opcode::ListProviders
                        ==> spec_body_to_operation(request.body@, request.header.opcode) is Some
                        ==> (h.provider matches Provider::Core(c) ==> ((r.status
                        == ResponseStatus::Success && r.body@ == spec_result_to_body(
                        (ResultView::ListProviders {
                            providers: c.providers@.map_values(
                                |p: crate::operations::ProviderInfo| p@,
                            ),
                        }),
                    )) || (r.status == ResponseStatus::SerializingBodyFailed
                        && !result_encodable(
                        (ResultView::ListProviders {
                            providers: c.providers@.map_values(
                                |p: crate::operations::ProviderInfo| p@,
                            ),
                        }),
                    )))))
                    &&& (spec_body_to_operation(request.body@, request.header.opcode) is Some && (
                    request.header.opcode == Opcode::PsaGenerateRandom || request.header.opcode
                        == Opcode::ListAuthenticators) ==> r.status
                        == ResponseStatus::PsaErrorNotSupported)
                    &&& (spec_body_to_operation(request.body@, request.header.opcode) is Some
                        && app_name is Some && (request.header.opcode == Opcode::ListKeys
                        || request.header.opcode == Opcode::PsaExportKey || request.header.opcode
                        == Opcode::PsaAsymmetricEncrypt || request.header.opcode
                        == Opcode::PsaAsymmetricDecrypt || request.header.opcode
                        == Opcode::PsaAeadEncrypt || request.header.opcode
                        == Opcode::PsaAeadDecrypt || request.header.opcode
                        == Opcode::PsaRawKeyAgreement || request.header.opcode
                        == Opcode::PsaHashCompute || request.header.opcode
                        == Opcode::PsaHashCompare) ==> r.status
                        == ResponseStatus::PsaErrorNotSupported)
                    &&& (h.provider matches Provider::Pkcs11(pp) ==> (app_name matches Some(app)
                        ==> (spec_body_to_operation(request.body@, request.header.opcode) matches
                        Some(OpView::PsaGenerateKey { key_name, attributes }) ==> (final(self).handler_for(request.header.provider) matches Some(h2) && {
                        &&& (!supported_generate_attributes(attributes) ==> r.status
                            == ResponseStatus::UnsupportedOperation && p11_store(h2.provider)
                            == pp.store_view() && p11_ids(h2.provider) == pp.ids_view())
                        &&& (supported_generate_attributes(attributes)
                            && pp.store_view().contains_key(p11_triple(app@, key_name))
                            ==> r.status == ResponseStatus::KeyAlreadyExists && p11_store(
                            h2.provider,
                        ) == pp.store_view() && p11_ids(h2.provider) == pp.ids_view())
                        &&& (supported_generate_attributes(attributes)
                            && !pp.store_view().contains_key(p11_triple(app@, key_name)) ==> ((
                        r.status == ResponseStatus::Success && r.body@ == spec_result_to_body(
                            ResultView::PsaGenerateKey,
                        ) && (exists|id: u32|
                            !pp.ids_view().contains(id) && p11_store(h2.provider)
                                == pp.store_view().insert(
                                p11_triple(app@, key_name),
                                (KeyInfoView { id: enc_u32(id), attributes }),
                            ))) || ((r.status == ResponseStatus::PsaErrorCommunicationFailure
                            || r.status == ResponseStatus::PsaErrorHardwareFailure) && p11_store(
                            h2.provider,
                        ) == pp.store_view() && (forall|x: u32|
                            p11_ids(h2.provider).contains(x) <==> pp.ids_view().contains(x)))))
                    }))))
                    &&& (h.provider matches Provider::Pkcs11(pp) ==> (app_name matches Some(app)
                        ==> (spec_body_to_operation(request.body@, request.header.opcode) matches
                        Some(OpView::PsaImportKey { key_name, attributes, data }) ==> (final(self).handler_for(request.header.provider) matches Some(h2) && {
                        &&& (!supported_import_attributes(attributes) ==> r.status
                            == ResponseStatus::UnsupportedOperation && p11_store(h2.provider)
                            == pp.store_view() && p11_ids(h2.provider) == pp.ids_view())
                        &&& (supported_import_attributes(attributes) && spec_rsa_der_decode(data)
                            is None ==> r.status == ResponseStatus::PsaErrorInvalidArgument
                            && p11_store(h2.provider) == pp.store_view() && p11_ids(h2.provider)
                            == pp.ids_view())
                        &&& (supported_import_attributes(attributes) && spec_rsa_der_decode(data)
                            is Some && pp.store_view().contains_key(p11_triple(app@, key_name))
                            ==> r.status == ResponseStatus::KeyAlreadyExists && p11_store(
                            h2.provider,
                        ) == pp.store_view() && p11_ids(h2.provider) == pp.ids_view())
                        &&& (supported_import_attributes(attributes) && spec_rsa_der_decode(data)
                            is Some && !pp.store_view().contains_key(p11_triple(app@, key_name))
                            ==> ((r.status == ResponseStatus::Success && r.body@
                            == spec_result_to_body(ResultView::PsaImportKey) && (exists|id: u32|
                            !pp.ids_view().contains(id) && p11_store(h2.provider)
                                == pp.store_view().insert(
                                p11_triple(app@, key_name),
                                (KeyInfoView { id: enc_u32(id), attributes }),
                            ))) || ((r.status == ResponseStatus::PsaErrorCommunicationFailure
                            || r.status == ResponseStatus::PsaErrorHardwareFailure) && p11_store(
                            h2.provider,
                        ) == pp.store_view() && (forall|x: u32|
                            p11_ids(h2.provider).contains(x) <==> pp.ids_view().contains(x)))))
                    }))))
                    &&& (h.provider matches Provider::Pkcs11(pp) ==> (app_name matches Some(app)
                        ==> (spec_body_to_operation(request.body@, request.header.opcode) matches
                        Some(OpView::PsaDestroyKey { key_name }) ==> (final(self).handler_for(
                        request.header.provider,
                    ) matches Some(h2) && {
                        &&& (!pp.store_view().contains_key(p11_triple(app@, key_name))
                            ==> r.status == ResponseStatus::PsaErrorDoesNotExist && p11_store(
                            h2.provider,
                        ) == pp.store_view() && p11_ids(h2.provider) == pp.ids_view())
                        &&& (pp.store_view().contains_key(p11_triple(app@, key_name))
                            && pp.store_view()[p11_triple(app@, key_name)].id.len() != 4
                            ==> r.status == ResponseStatus::KeyInfoManagerError && p11_store(
                            h2.provider,
                        ) == pp.store_view() && p11_ids(h2.provider) == pp.ids_view())
                        &&& (r.status == ResponseStatus::Success ==> r.body@
                            == spec_result_to_body(ResultView::PsaDestroyKey)
                            && pp.store_view().contains_key(p11_triple(app@, key_name))
                            && p11_store(h2.provider) == pp.store_view().remove(
                            p11_triple(app@, key_name),
                        ) && (forall|x: u32|
                            p11_ids(h2.provider).contains(x) <==> (pp.ids_view().contains(x) && x
                                != id_of_bytes(
                                pp.store_view()[p11_triple(app@, key_name)].id,
                            ))))
                        &&& (r.status != ResponseStatus::Success ==> p11_store(h2.provider)
                            == pp.store_view() && p11_ids(h2.provider) == pp.ids_view())
                    }))))
                    &&& (h.provider matches Provider::Pkcs11(pp) ==> (app_name matches Some(app)
                        ==> (spec_body_to_operation(request.body@, request.header.opcode) matches
                        Some(OpView::PsaExportPublicKey { key_name }) ==> {
                        &&& (!pp.store_view().contains_key(p11_triple(app@, key_name))
                            ==> r.status == ResponseStatus::PsaErrorDoesNotExist)
                        &&& (pp.store_view().contains_key(p11_triple(app@, key_name))
                            && pp.store_view()[p11_triple(app@, key_name)].id.len() != 4
                            ==> r.status == ResponseStatus::KeyInfoManagerError)
                    })))
                    &&& (h.provider matches Provider::Pkcs11(pp) ==> (app_name matches Some(app)
                        ==> (spec_body_to_operation(request.body@, request.header.opcode) matches
                        Some(OpView::PsaSignHash { key_name, hash }) ==> {
                        &&& (!pp.store_view().contains_key(p11_triple(app@, key_name))
                            ==> r.status == ResponseStatus::PsaErrorDoesNotExist)
                        &&& (pp.store_view().contains_key(p11_triple(app@, key_name))
                            && pp.store_view()[p11_triple(app@, key_name)].id.len() != 4
                            ==> r.status == ResponseStatus::KeyInfoManagerError)
                    })))
                    &&& (h.provider matches Provider::Pkcs11(pp) ==> (app_name matches Some(app)
                        ==> (spec_body_to_operation(request.body@, request.header.opcode) matches
                        Some(OpView::PsaVerifyHash { key_name, hash, signature }) ==> {
                        &&& (!pp.store_view().contains_key(p11_triple(app@, key_name))
                            ==> r.status == ResponseStatus::PsaErrorDoesNotExist)
                        &&& (pp.store_view().contains_key(p11_triple(app@, key_name))
                            && pp.store_view()[p11_triple(app@, key_name)].id.len() != 4
                            ==> r.status == ResponseStatus::KeyInfoManagerError)
                    })))
                },
            },
    {
        let handler = match request.header.provider {
            ProviderId::Core => &mut self.core_handler,
            ProviderId::Pkcs11 => &mut self.pkcs11_handler,
        };
        match handler {
            Option::None => Response::from_request_header(
                request.header,
                ResponseStatus::ProviderNotRegistered,
            ),
            Option::Some(h) => match h.is_capable(&request) {
                Result::Err(status) => Response::from_request_header(request.header, status),
                Result::Ok(..) => h.execute_request(request, app_name),
            },
        }
    }
}

} // verus!
