//! TLS trust: certificates from PEM text, root stores, client configurations and server names.
use vstd::prelude::*;
use crate::text::join;

verus! {

/// A trust anchor: what a root store keeps of a certificate.
pub struct AnchorView {
    /// The subject, DER encoded.
    pub subject: Seq<u8>,
    /// The subject public key info, DER encoded.
    pub key_info: Seq<u8>,
    /// The name constraints, DER encoded, if the certificate has any.
    pub name_constraints: Option<Seq<u8>>,
}

/// A store of root certificates of `rustls`.
#[verifier::external_type_specification]
#[verifier::external_body]
pub struct ExRootCertStore(rustls::RootCertStore);

/// A TLS client configuration of `rustls`.
#[verifier::external_type_specification]
#[verifier::external_body]
pub struct ExClientConfig(rustls::ClientConfig);

/// A TLS server configuration of `rustls`.
#[verifier::external_type_specification]
#[verifier::external_body]
pub struct ExServerConfig(rustls::ServerConfig);

/// What `rustls_pemfile::certs` yields on bytes in memory: for each certificate section its DER
/// bytes, and `None` for each section that it could not decode.
pub uninterp spec fn pem_sections(pem: Seq<u8>) -> Seq<Option<Seq<u8>>>;

/// The trust anchor that `rustls::RootCertStore::add` takes from a DER certificate, or the
/// message of its error.
pub uninterp spec fn trust_anchor(der: Seq<u8>) -> Result<AnchorView, Seq<char>>;

/// The trust anchors of a root store, in the order in which they were added.
pub uninterp spec fn store_roots(store: rustls::RootCertStore) -> Seq<AnchorView>;

/// The trust anchors against which a client configuration verifies servers.
pub uninterp spec fn config_roots(config: rustls::ClientConfig) -> Seq<AnchorView>;

/// Whether `rustls::pki_types::ServerName` accepts a string as a DNS name or an IP address.
pub uninterp spec fn is_server_name(name: Seq<char>) -> bool;

/// `rustls_pemfile::certs` on bytes in memory, with what it yields put in a vector.
#[verifier::external_body]
pub(crate) fn read_pem(pem: &[u8]) -> (r: Vec<Option<Vec<u8>>>)
    ensures
        r.deep_view() == pem_sections(pem@),
{
    let mut input: &[u8] = pem;
    rustls_pemfile::certs(&mut input).map(|c| c.ok().map(|der| der.as_ref().to_vec())).collect()
}

/// `rustls::RootCertStore::empty`: a store without roots.
#[verifier::external_body]
pub(crate) fn empty_store() -> (r: rustls::RootCertStore)
    ensures
        store_roots(r) == Seq::<AnchorView>::empty(),
{
    rustls::RootCertStore::empty()
}

/// `rustls::RootCertStore::add`: the trust anchor of the certificate is put behind the others, or
/// the store stays as it is and the message of the error is returned.
#[verifier::external_body]
pub(crate) fn add_root(store: &mut rustls::RootCertStore, der: &[u8]) -> (r: Result<(), String>)
    ensures
        match r {
            Ok(_) => trust_anchor(der@) is Ok && store_roots(*final(store)) == store_roots(
                *old(store),
            ).push(trust_anchor(der@)->Ok_0),
            Err(e) => trust_anchor(der@) is Err && trust_anchor(der@)->Err_0 == e@ && *final(store)
                == *old(store),
        },
{
    store.add(rustls::pki_types::CertificateDer::from(der.to_vec())).map_err(|e| e.to_string())
}

/// `rustls::ClientConfig::builder_with_provider` with the default provider of `ring`, the default
/// protocol versions, the given roots and no client authentication. The default provider has
/// cipher suites and key exchange groups for these versions, so this succeeds.
#[verifier::external_body]
pub(crate) fn client_config(store: rustls::RootCertStore) -> (r: Result<
    rustls::ClientConfig,
    String,
>)
    ensures
        r is Ok,
        config_roots(r->Ok_0) == store_roots(store),
{
    let provider = std::sync::Arc::new(rustls::crypto::ring::default_provider());
    match rustls::ClientConfig::builder_with_provider(
        provider,
    ).with_safe_default_protocol_versions() {
        Ok(b) => Ok(b.with_root_certificates(store).with_no_client_auth()),
        Err(e) => Err(e.to_string()),
    }
}

/// `rustls::pki_types::ServerName::try_from`: whether it accepts the name.
#[verifier::external_body]
pub(crate) fn accepts_server_name(name: &str) -> (r: bool)
    ensures
        r == is_server_name(name@),
{
    rustls::pki_types::ServerName::try_from(name).is_ok()
}

/// The certificates among decoded sections, in order; sections that could not be decoded are
/// passed over.
pub open spec fn usable(sections: Seq<Option<Seq<u8>>>) -> Seq<Seq<u8>>
    decreases sections.len(),
{
    if sections.len() == 0 {
        Seq::empty()
    } else {
        match sections.last() {
            Some(der) => usable(sections.drop_last()).push(der),
            None => usable(sections.drop_last()),
        }
    }
}

/// The certificates among decoded sections.
pub fn usable_certs(sections: Vec<Option<Vec<u8>>>) -> (r: Vec<Vec<u8>>)
    ensures
        r.deep_view() == usable(sections.deep_view()),
{
    let mut r: Vec<Vec<u8>> = Vec::new();
    let mut i: usize = 0;
    let ghost all = sections.deep_view();
    assert(all.take(0) =~= Seq::<Option<Seq<u8>>>::empty());
    assert(r.deep_view() =~= Seq::<Seq<u8>>::empty());
    while i < sections.len()
        invariant
            0 <= i <= sections.len(),
            all == sections.deep_view(),
            r.deep_view() == usable(all.take(i as int)),
        decreases sections.len() - i,
    {
        let ghost before = r.deep_view();
        assert(all.take(i + 1).drop_last() =~= all.take(i as int));
        assert(all.take(i + 1).last() == all[i as int]);
        if let Some(der) = &sections[i] {
            let copy: Vec<u8> = der.clone();
            assert(copy.deep_view() =~= der.deep_view());
            r.push(copy);
            assert(r.deep_view() =~= before.push(der.deep_view()));
        }
        i = i + 1;
    }
    assert(all.take(all.len() as int) =~= all);
    r
}

/// The roots after the certificates were added to `roots` in order, or the message of the first
/// one that was refused.
pub open spec fn added(roots: Seq<AnchorView>, certs: Seq<Seq<u8>>) -> Result<
    Seq<AnchorView>,
    Seq<char>,
>
    decreases certs.len(),
{
    if certs.len() == 0 {
        Ok(roots)
    } else {
        match added(roots, certs.drop_last()) {
            Ok(before) => match trust_anchor(certs.last()) {
                Ok(anchor) => Ok(before.push(anchor)),
                Err(message) => Err(message),
            },
            Err(message) => Err(message),
        }
    }
}

/// The roots after the certificates were added to `roots` in order, up to the first one that was
/// refused.
pub open spec fn added_until_refused(roots: Seq<AnchorView>, certs: Seq<Seq<u8>>) -> Seq<AnchorView>
    decreases certs.len(),
{
    if certs.len() == 0 {
        roots
    } else {
        match added(roots, certs) {
            Ok(all) => all,
            Err(_) => added_until_refused(roots, certs.drop_last()),
        }
    }
}

/// The roots after the certificates were added to `roots` in order, those that were refused
/// passed over.
pub open spec fn added_where_valid(roots: Seq<AnchorView>, certs: Seq<Seq<u8>>) -> Seq<AnchorView>
    decreases certs.len(),
{
    if certs.len() == 0 {
        roots
    } else {
        let before = added_where_valid(roots, certs.drop_last());
        match trust_anchor(certs.last()) {
            Ok(anchor) => before.push(anchor),
            Err(_) => before,
        }
    }
}

/// A certificate that is refused stops the adding: what stands behind it changes nothing.
proof fn lemma_added_stops(roots: Seq<AnchorView>, certs: Seq<Seq<u8>>, i: int)
    requires
        0 <= i <= certs.len(),
        added(roots, certs.take(i)) is Err,
    ensures
        added(roots, certs) == added(roots, certs.take(i)),
        added_until_refused(roots, certs) == added_until_refused(roots, certs.take(i)),
    decreases certs.len(),
{
    if i == certs.len() {
        assert(certs.take(i) =~= certs);
    } else {
        assert(certs.drop_last().take(i) =~= certs.take(i));
        lemma_added_stops(roots, certs.drop_last(), i);
    }
}

/// Add certificates to a store, up to the first that is refused.
pub fn add_certs(store: &mut rustls::RootCertStore, certs: &Vec<Vec<u8>>) -> (r: Result<(), String>)
    ensures
        match added(store_roots(*old(store)), certs.deep_view()) {
            Ok(_) => r is Ok,
            Err(message) => r is Err && r->Err_0@ == message,
        },
        store_roots(*final(store)) == added_until_refused(
            store_roots(*old(store)),
            certs.deep_view(),
        ),
{
    let ghost all = certs.deep_view();
    let ghost start = store_roots(*store);
    assert(all.take(0) =~= Seq::<Seq<u8>>::empty());
    let mut i: usize = 0;
    while i < certs.len()
        invariant
            0 <= i <= certs.len(),
            all == certs.deep_view(),
            start == store_roots(*old(store)),
            added(start, all.take(i as int)) == Ok::<Seq<AnchorView>, Seq<char>>(
                store_roots(*store),
            ),
        decreases certs.len() - i,
    {
        assert(all.take(i + 1).drop_last() =~= all.take(i as int));
        assert(all.take(i + 1).last() =~= certs[i as int]@);
        if let Err(message) = add_root(store, certs[i].as_slice()) {
            proof {
                assert(added_until_refused(start, all.take(i as int)) == store_roots(*store));
                lemma_added_stops(start, all, i + 1);
            }
            return Err(message);
        }
        i = i + 1;
    }
    assert(all.take(all.len() as int) =~= all);
    Ok(())
}

/// Add certificates to a store, passing over those that are refused.
pub fn add_valid_certs(store: &mut rustls::RootCertStore, certs: &Vec<Vec<u8>>)
    ensures
        store_roots(*final(store)) == added_where_valid(
            store_roots(*old(store)),
            certs.deep_view(),
        ),
{
    let ghost all = certs.deep_view();
    let ghost start = store_roots(*store);
    assert(all.take(0) =~= Seq::<Seq<u8>>::empty());
    let mut i: usize = 0;
    while i < certs.len()
        invariant
            0 <= i <= certs.len(),
            all == certs.deep_view(),
            start == store_roots(*old(store)),
            added_where_valid(start, all.take(i as int)) == store_roots(*store),
        decreases certs.len() - i,
    {
        assert(all.take(i + 1).drop_last() =~= all.take(i as int));
        assert(all.take(i + 1).last() =~= certs[i as int]@);
        let _ = add_root(store, certs[i].as_slice());
        i = i + 1;
    }
    assert(all.take(all.len() as int) =~= all);
}

/// The roots of a CA file with the given PEM sections, or the message of the failure: those of all
/// its certificates or, if it has no section, that of the file itself if it is a certificate.
pub open spec fn file_roots(file: Seq<u8>, sections: Seq<Option<Seq<u8>>>) -> Result<
    Seq<AnchorView>,
    Seq<char>,
> {
    if sections.len() == 0 {
        Ok(added_where_valid(Seq::empty(), seq![file]))
    } else {
        added(Seq::empty(), usable(sections))
    }
}

/// A store with the roots of a CA file with the given PEM sections.
pub fn file_store(file: &[u8], sections: Vec<Option<Vec<u8>>>) -> (r: Result<
    rustls::RootCertStore,
    String,
>)
    ensures
        match file_roots(file@, sections.deep_view()) {
            Ok(roots) => r is Ok && store_roots(r->Ok_0) == roots,
            Err(message) => r is Err && r->Err_0@ == message,
        },
{
    let mut store: rustls::RootCertStore = empty_store();
    if sections.len() == 0 {
        let mut der: Vec<Vec<u8>> = Vec::new();
        let copy: Vec<u8> = vstd::slice::slice_to_vec(file);
        assert(copy.deep_view() =~= file@);
        der.push(copy);
        assert(der.deep_view() =~= seq![file@]);
        add_valid_certs(&mut store, &der);
        return Ok(store);
    }
    let certs: Vec<Vec<u8>> = usable_certs(sections);
    match add_certs(&mut store, &certs) {
        Ok(_) => Ok(store),
        Err(e) => Err(e),
    }
}

/// The trust anchors of an agent, or the message of the failure: first those of the custom CA
/// file, if there is one, then the bundled ones, then the native ones that are valid.
pub open spec fn trusted_roots(
    custom: Option<Seq<u8>>,
    bundled: Seq<u8>,
    native: Seq<Seq<u8>>,
) -> Result<Seq<AnchorView>, Seq<char>> {
    let with_custom = match custom {
        Some(file) => file_roots(file, pem_sections(file)),
        None => Ok(Seq::empty()),
    };
    match with_custom {
        Err(message) => Err("failed to add CA cert: "@ + message),
        Ok(roots) => match added(roots, usable(pem_sections(bundled))) {
            Err(message) => Err("failed to add ngrok CA cert: "@ + message),
            Ok(roots) => Ok(added_where_valid(roots, native)),
        },
    }
}

/// The TLS client configuration of an agent that brings none of its own.
pub fn agent_config(custom: &Option<Vec<u8>>, bundled: &[u8], native: &Vec<Vec<u8>>) -> (r: Result<
    rustls::ClientConfig,
    String,
>)
    ensures
        match trusted_roots(custom.deep_view(), bundled@, native.deep_view()) {
            Ok(roots) => r is Ok && config_roots(r->Ok_0) == roots,
            Err(message) => r is Err && r->Err_0@ == message,
        },
{
    let mut store: rustls::RootCertStore = match custom {
        Some(file) => {
            assert(file.deep_view() =~= file@);
            match file_store(file.as_slice(), read_pem(file.as_slice())) {
                Ok(store) => store,
                Err(e) => return Err(join("failed to add CA cert: ", e.as_str())),
            }
        },
        None => empty_store(),
    };
    let certs: Vec<Vec<u8>> = usable_certs(read_pem(bundled));
    if let Err(e) = add_certs(&mut store, &certs) {
        return Err(join("failed to add ngrok CA cert: ", e.as_str()));
    }
    add_valid_certs(&mut store, native);
    match client_config(store) {
        Ok(config) => Ok(config),
        Err(e) => Err(join("failed to configure TLS: ", e.as_str())),
    }
}

/// The text of `rustls::Error::General`: its message behind a fixed beginning.
#[verifier::external_body]
pub(crate) fn general_error_text(message: &str) -> (r: String)
    ensures
        r@ == "unexpected error: "@ + message@,
{
    rustls::Error::General(message.to_string()).to_string()
}

/// The certificates of a file are those of its sections that could be decoded, in order.
pub proof fn decodable_sections_are_used(sections: Seq<Option<Seq<u8>>>, der: Seq<u8>)
    ensures
        usable(Seq::empty()).len() == 0,
        usable(sections.push(None)) == usable(sections),
        usable(sections.push(Some(der))) == usable(sections).push(der),
        usable(sections).contains(der) <==> sections.contains(Some(der)),
    decreases sections.len(),
{
    assert(sections.push(None).drop_last() =~= sections);
    assert(sections.push(Some(der)).drop_last() =~= sections);
    if sections.len() > 0 {
        let front = sections.drop_last();
        decodable_sections_are_used(front, der);
        let used = usable(sections);
        let before = usable(front);
        if sections.contains(Some(der)) {
            let i = choose|i: int| 0 <= i < sections.len() && sections[i] == Some(der);
            if i < front.len() {
                assert(front[i] == Some(der));
                let j = choose|j: int| 0 <= j < before.len() && before[j] == der;
                assert(used[j] == der);
            } else {
                assert(used[before.len() as int] == der);
            }
        }
        if used.contains(der) {
            let j = choose|j: int| 0 <= j < used.len() && used[j] == der;
            if j < before.len() {
                assert(before[j] == der);
                let i = choose|i: int| 0 <= i < front.len() && front[i] == Some(der);
                assert(sections[i] == Some(der));
            } else {
                assert(sections[sections.len() - 1] == Some(der));
            }
        }
    } else {
        assert(usable(sections).len() == 0);
    }
}

/// Adding certificates succeeds if and only if all of them are accepted. The anchors of all of them
/// then stand behind the roots from before, in order. Otherwise the message is that of the first
/// one that is refused.
pub proof fn adding_adds_every_anchor(roots: Seq<AnchorView>, certs: Seq<Seq<u8>>)
    ensures
        added(roots, certs) is Ok <==> (forall|i: int|
            0 <= i < certs.len() ==> trust_anchor(#[trigger] certs[i]) is Ok),
        added(roots, certs) matches Ok(all) ==> {
            &&& all.len() == roots.len() + certs.len()
            &&& all.take(roots.len() as int) == roots
            &&& forall|i: int|
                0 <= i < certs.len() ==> trust_anchor(#[trigger] certs[i]) == Ok::<
                    AnchorView,
                    Seq<char>,
                >(all[roots.len() + i])
        },
        added(roots, certs) matches Err(message) ==> exists|i: int|
            {
                &&& 0 <= i < certs.len()
                &&& trust_anchor(#[trigger] certs[i]) == Err::<AnchorView, Seq<char>>(message)
                &&& forall|j: int| 0 <= j < i ==> trust_anchor(#[trigger] certs[j]) is Ok
            },
    decreases certs.len(),
{
    if certs.len() == 0 {
        assert(roots.take(roots.len() as int) =~= roots);
    } else {
        let front = certs.drop_last();
        let last = certs.len() - 1;
        adding_adds_every_anchor(roots, front);
        match added(roots, front) {
            Err(message) => {
                let i = choose|i: int|
                    {
                        &&& 0 <= i < front.len()
                        &&& trust_anchor(#[trigger] front[i]) == Err::<AnchorView, Seq<char>>(
                            message,
                        )
                        &&& forall|j: int| 0 <= j < i ==> trust_anchor(#[trigger] front[j]) is Ok
                    };
                assert(certs[i] == front[i]);
                assert forall|j: int| 0 <= j < i implies trust_anchor(#[trigger] certs[j]) is Ok by {
                    assert(front[j] == certs[j]);
                }
            },
            Ok(before) => {
                assert forall|i: int| 0 <= i < last implies trust_anchor(#[trigger] certs[i]) == Ok::<
                    AnchorView,
                    Seq<char>,
                >(before[roots.len() + i]) by {
                    assert(front[i] == certs[i]);
                }
                match trust_anchor(certs[last]) {
                    Ok(anchor) => {
                        let all = before.push(anchor);
                        assert(all.take(roots.len() as int) =~= before.take(roots.len() as int));
                    },
                    Err(_) => {
                        assert(trust_anchor(certs[last]) is Err);
                    },
                }
            },
        }
    }
}

/// Adding certificates up to the first that is refused: the anchors of those in front of it, all of
/// which are accepted, stand behind the roots from before, and nothing else is added.
pub proof fn adding_stops_at_the_first_refused(roots: Seq<AnchorView>, certs: Seq<Seq<u8>>)
    ensures
        exists|n: int|
            {
                &&& 0 <= n <= certs.len()
                &&& added(roots, #[trigger] certs.take(n)) == Ok::<Seq<AnchorView>, Seq<char>>(
                    added_until_refused(roots, certs),
                )
                &&& n < certs.len() ==> trust_anchor(certs[n]) is Err
            },
    decreases certs.len(),
{
    let all = certs.len() as int;
    assert(certs.take(all) =~= certs);
    if added(roots, certs) is Err {
        let front = certs.drop_last();
        adding_stops_at_the_first_refused(roots, front);
        let n = choose|n: int|
            {
                &&& 0 <= n <= front.len()
                &&& added(roots, #[trigger] front.take(n)) == Ok::<Seq<AnchorView>, Seq<char>>(
                    added_until_refused(roots, front),
                )
                &&& n < front.len() ==> trust_anchor(front[n]) is Err
            };
        assert(front.take(n) =~= certs.take(n));
        if n == front.len() {
            assert(front.take(n) =~= front);
        }
    }
}

/// Adding certificates where they are valid keeps the roots from before, adds the anchor of each one
/// that is accepted behind the others, and passes over those that are refused.
pub proof fn valid_certificates_are_added(
    roots: Seq<AnchorView>,
    certs: Seq<Seq<u8>>,
    der: Seq<u8>,
    anchor: AnchorView,
)
    ensures
        added_where_valid(roots, Seq::empty()) == roots,
        trust_anchor(der) matches Ok(a) ==> added_where_valid(roots, certs.push(der))
            == added_where_valid(roots, certs).push(a),
        trust_anchor(der) is Err ==> added_where_valid(roots, certs.push(der)) == added_where_valid(
            roots,
            certs,
        ),
        added_where_valid(roots, certs).contains(anchor) <==> roots.contains(anchor) || exists|i: int|
            0 <= i < certs.len() && trust_anchor(#[trigger] certs[i]) == Ok::<
                AnchorView,
                Seq<char>,
            >(anchor),
    decreases certs.len(),
{
    assert(certs.push(der).drop_last() =~= certs);
    if certs.len() > 0 {
        let front = certs.drop_last();
        let last = certs.len() - 1;
        valid_certificates_are_added(roots, front, der, anchor);
        let before = added_where_valid(roots, front);
        let after = added_where_valid(roots, certs);
        if before.contains(anchor) {
            let j = choose|j: int| 0 <= j < before.len() && before[j] == anchor;
            assert(after[j] == anchor);
        }
        if exists|i: int|
            0 <= i < certs.len() && trust_anchor(#[trigger] certs[i]) == Ok::<AnchorView, Seq<char>>(
                anchor,
            ) {
            let i = choose|i: int|
                0 <= i < certs.len() && trust_anchor(#[trigger] certs[i]) == Ok::<
                    AnchorView,
                    Seq<char>,
                >(anchor);
            if i < last {
                assert(front[i] == certs[i]);
            } else {
                assert(after[before.len() as int] == anchor);
            }
        }
        if after.contains(anchor) && !before.contains(anchor) {
            let j = choose|j: int| 0 <= j < after.len() && after[j] == anchor;
            if j < before.len() {
                assert(before[j] == anchor);
            }
            assert(trust_anchor(certs[last]) == Ok::<AnchorView, Seq<char>>(anchor));
        }
        if exists|i: int|
            0 <= i < front.len() && trust_anchor(#[trigger] front[i]) == Ok::<AnchorView, Seq<char>>(
                anchor,
            ) {
            let i = choose|i: int|
                0 <= i < front.len() && trust_anchor(#[trigger] front[i]) == Ok::<
                    AnchorView,
                    Seq<char>,
                >(anchor);
            assert(certs[i] == front[i]);
        }
    }
}

/// Which anchors stand among the roots after certificates were added.
proof fn lemma_added_contains(
    roots: Seq<AnchorView>,
    sections: Seq<Option<Seq<u8>>>,
    anchor: AnchorView,
)
    requires
        added(roots, usable(sections)) is Ok,
    ensures
        added(roots, usable(sections))->Ok_0.contains(anchor) <==> roots.contains(anchor) || exists|
            i: int,
        |
            0 <= i < sections.len() && (#[trigger] sections[i]) is Some && trust_anchor(
                sections[i]->0,
            ) == Ok::<AnchorView, Seq<char>>(anchor),
{
    let certs = usable(sections);
    let all = added(roots, certs)->Ok_0;
    let n = roots.len() as int;
    adding_adds_every_anchor(roots, certs);
    assert(all.take(n) == roots);
    if roots.contains(anchor) {
        let j = choose|j: int| 0 <= j < roots.len() && roots[j] == anchor;
        assert(all[j] == all.take(n)[j]);
    }
    if exists|i: int|
        0 <= i < sections.len() && (#[trigger] sections[i]) is Some && trust_anchor(sections[i]->0)
            == Ok::<AnchorView, Seq<char>>(anchor) {
        let i = choose|i: int|
            0 <= i < sections.len() && (#[trigger] sections[i]) is Some && trust_anchor(
                sections[i]->0,
            ) == Ok::<AnchorView, Seq<char>>(anchor);
        decodable_sections_are_used(sections, sections[i]->0);
        assert(sections.contains(Some(sections[i]->0)));
        let k = choose|k: int| 0 <= k < certs.len() && certs[k] == sections[i]->0;
        assert(trust_anchor(certs[k]) == Ok::<AnchorView, Seq<char>>(all[n + k]));
    }
    if all.contains(anchor) {
        let j = choose|j: int| 0 <= j < all.len() && all[j] == anchor;
        if j < n {
            assert(roots[j] == all.take(n)[j]);
        } else {
            let der = certs[j - n];
            assert(trust_anchor(der) == Ok::<AnchorView, Seq<char>>(all[n + (j - n)]));
            decodable_sections_are_used(sections, der);
            assert(certs.contains(der));
            let i = choose|i: int| 0 <= i < sections.len() && sections[i] == Some(der);
            assert(sections[i] is Some);
        }
    }
}

/// An agent trusts exactly what it was given. Whenever there is a configuration, an anchor is among
/// its roots if and only if it is that of a certificate of the custom CA file, if there is one (of a
/// section that can be decoded or, without any section, of the file itself), or of the bundled file,
/// or of a native certificate.
pub proof fn agent_trusts_exactly_the_given_roots(
    custom: Option<Seq<u8>>,
    bundled: Seq<u8>,
    native: Seq<Seq<u8>>,
    anchor: AnchorView,
)
    requires
        trusted_roots(custom, bundled, native) is Ok,
    ensures
        trusted_roots(custom, bundled, native)->Ok_0.contains(anchor) <==> {
            ||| custom is Some && exists|i: int|
                0 <= i < pem_sections(custom->0).len() && (#[trigger] pem_sections(custom->0)[i])
                    is Some && trust_anchor(pem_sections(custom->0)[i]->0) == Ok::<
                    AnchorView,
                    Seq<char>,
                >(anchor)
            ||| custom is Some && pem_sections(custom->0).len() == 0 && trust_anchor(custom->0)
                == Ok::<AnchorView, Seq<char>>(anchor)
            ||| exists|i: int|
                0 <= i < pem_sections(bundled).len() && (#[trigger] pem_sections(bundled)[i])
                    is Some && trust_anchor(pem_sections(bundled)[i]->0) == Ok::<
                    AnchorView,
                    Seq<char>,
                >(anchor)
            ||| exists|i: int|
                0 <= i < native.len() && trust_anchor(#[trigger] native[i]) == Ok::<
                    AnchorView,
                    Seq<char>,
                >(anchor)
        },
{
    let none = Seq::<AnchorView>::empty();
    let first = match custom {
        Some(file) => file_roots(file, pem_sections(file))->Ok_0,
        None => none,
    };
    if let Some(file) = custom {
        if pem_sections(file).len() == 0 {
            valid_certificates_are_added(none, seq![file], file, anchor);
            assert(seq![file][0] == file);
        } else {
            lemma_added_contains(none, pem_sections(file), anchor);
        }
    }
    lemma_added_contains(first, pem_sections(bundled), anchor);
    let second = added(first, usable(pem_sections(bundled)))->Ok_0;
    valid_certificates_are_added(second, native, Seq::empty(), anchor);
}

/// There is a configuration if and only if every certificate that can be decoded, of the custom file
/// and of the bundled one, is accepted. Otherwise the message says which file it was and repeats that
/// of its first certificate that is refused. Native certificates never matter to that.
pub proof fn refused_certificate_is_reported(
    custom: Option<Seq<u8>>,
    bundled: Seq<u8>,
    native: Seq<Seq<u8>>,
    own: Seq<Seq<u8>>,
    shared: Seq<Seq<u8>>,
)
    requires
        custom matches Some(file) ==> own == usable(pem_sections(file)),
        custom is None ==> own.len() == 0,
        shared == usable(pem_sections(bundled)),
    ensures
        trusted_roots(custom, bundled, native) is Ok <==> (forall|i: int|
            0 <= i < own.len() ==> trust_anchor(#[trigger] own[i]) is Ok) && (forall|i: int|
            0 <= i < shared.len() ==> trust_anchor(#[trigger] shared[i]) is Ok),
        trusted_roots(custom, bundled, native) matches Err(text) ==> {
            ||| exists|i: int|
                {
                    &&& 0 <= i < own.len()
                    &&& trust_anchor(#[trigger] own[i]) is Err
                    &&& text == "failed to add CA cert: "@ + trust_anchor(own[i])->Err_0
                    &&& forall|j: int| 0 <= j < i ==> trust_anchor(#[trigger] own[j]) is Ok
                }
            ||| {
                &&& forall|i: int| 0 <= i < own.len() ==> trust_anchor(#[trigger] own[i]) is Ok
                &&& exists|i: int|
                    {
                        &&& 0 <= i < shared.len()
                        &&& trust_anchor(#[trigger] shared[i]) is Err
                        &&& text == "failed to add ngrok CA cert: "@ + trust_anchor(
                            shared[i],
                        )->Err_0
                        &&& forall|j: int| 0 <= j < i ==> trust_anchor(#[trigger] shared[j]) is Ok
                    }
            }
        },
{
    let none = Seq::<AnchorView>::empty();
    let first = match custom {
        Some(file) => file_roots(file, pem_sections(file)),
        None => Ok(none),
    };
    adding_adds_every_anchor(none, own);
    if first is Err {
        let message = first->Err_0;
        let i = choose|i: int|
            {
                &&& 0 <= i < own.len()
                &&& trust_anchor(#[trigger] own[i]) == Err::<AnchorView, Seq<char>>(message)
                &&& forall|j: int| 0 <= j < i ==> trust_anchor(#[trigger] own[j]) is Ok
            };
        assert(trust_anchor(own[i])->Err_0 == message);
    } else {
        adding_adds_every_anchor(first->Ok_0, shared);
        assert forall|i: int| 0 <= i < own.len() implies trust_anchor(#[trigger] own[i]) is Ok by {}
        if added(first->Ok_0, shared) is Err {
            let message = added(first->Ok_0, shared)->Err_0;
            let i = choose|i: int|
                {
                    &&& 0 <= i < shared.len()
                    &&& trust_anchor(#[trigger] shared[i]) == Err::<AnchorView, Seq<char>>(message)
                    &&& forall|j: int| 0 <= j < i ==> trust_anchor(#[trigger] shared[j]) is Ok
                };
            assert(trust_anchor(shared[i])->Err_0 == message);
        }
    }
}

/// The roots of a CA file are the anchors of its certificates: of all that can be decoded in a file
/// with sections, and of the file itself, if it is a certificate, in one without.
pub proof fn file_gives_its_own_roots(
    file: Seq<u8>,
    sections: Seq<Option<Seq<u8>>>,
    anchor: AnchorView,
)
    ensures
        sections.len() == 0 ==> file_roots(file, sections) is Ok,
        sections.len() > 0 ==> (file_roots(file, sections) is Ok <==> forall|i: int|
            0 <= i < sections.len() && (#[trigger] sections[i]) is Some ==> trust_anchor(
                sections[i]->0,
            ) is Ok),
        file_roots(file, sections) matches Ok(roots) ==> (roots.contains(anchor) <==> {
            ||| sections.len() == 0 && trust_anchor(file) == Ok::<AnchorView, Seq<char>>(anchor)
            ||| exists|i: int|
                0 <= i < sections.len() && (#[trigger] sections[i]) is Some && trust_anchor(
                    sections[i]->0,
                ) == Ok::<AnchorView, Seq<char>>(anchor)
        }),
{
    let none = Seq::<AnchorView>::empty();
    if sections.len() == 0 {
        valid_certificates_are_added(none, seq![file], file, anchor);
        assert(seq![file][0] == file);
    } else {
        let certs = usable(sections);
        adding_adds_every_anchor(none, certs);
        if added(none, certs) is Ok {
            lemma_added_contains(none, sections, anchor);
            assert forall|i: int| 0 <= i < sections.len() && (#[trigger] sections[i]) is Some implies
                trust_anchor(sections[i]->0) is Ok by {
                decodable_sections_are_used(sections, sections[i]->0);
                let k = choose|k: int| 0 <= k < certs.len() && certs[k] == sections[i]->0;
                assert(trust_anchor(certs[k]) is Ok);
            }
        } else {
            let k = choose|k: int| 0 <= k < certs.len() && trust_anchor(#[trigger] certs[k]) is Err;
            decodable_sections_are_used(sections, certs[k]);
            let i = choose|i: int| 0 <= i < sections.len() && sections[i] == Some(certs[k]);
            assert(sections[i] is Some);
        }
    }
}

/// A configuration trusts an anchor if and only if it is that of a certificate of the custom CA file,
/// of the bundled one or of a native one.
pub proof fn configuration_trusts_exactly_the_given_roots(
    custom: &Option<Vec<u8>>,
    bundled: &[u8],
    native: &Vec<Vec<u8>>,
    r: Result<rustls::ClientConfig, String>,
    anchor: AnchorView,
)
    requires
        call_ensures(agent_config, (custom, bundled, native), r),
        r is Ok,
    ensures
        config_roots(r->Ok_0).contains(anchor) <==> {
            ||| *custom is Some && exists|i: int|
                0 <= i < pem_sections((*custom)->0@).len() && (#[trigger] pem_sections(
                    (*custom)->0@,
                )[i]) is Some && trust_anchor(pem_sections((*custom)->0@)[i]->0) == Ok::<
                    AnchorView,
                    Seq<char>,
                >(anchor)
            ||| *custom is Some && pem_sections((*custom)->0@).len() == 0 && trust_anchor(
                (*custom)->0@,
            ) == Ok::<AnchorView, Seq<char>>(anchor)
            ||| exists|i: int|
                0 <= i < pem_sections(bundled@).len() && (#[trigger] pem_sections(bundled@)[i])
                    is Some && trust_anchor(pem_sections(bundled@)[i]->0) == Ok::<
                    AnchorView,
                    Seq<char>,
                >(anchor)
            ||| exists|i: int|
                0 <= i < native@.len() && trust_anchor((#[trigger] native@[i])@) == Ok::<
                    AnchorView,
                    Seq<char>,
                >(anchor)
        },
{
    let ders = native.deep_view();
    agent_trusts_exactly_the_given_roots(custom.deep_view(), bundled@, ders, anchor);
    if *custom is Some {
        assert((*custom)->0.deep_view() =~= (*custom)->0@);
    }
    assert forall|i: int| 0 <= i < native@.len() implies #[trigger] ders[i] == native@[i]@ by {
        assert(native@[i].deep_view() =~= native@[i]@);
    }
    if exists|i: int|
        0 <= i < native@.len() && trust_anchor((#[trigger] native@[i])@) == Ok::<
            AnchorView,
            Seq<char>,
        >(anchor) {
        let i = choose|i: int|
            0 <= i < native@.len() && trust_anchor((#[trigger] native@[i])@) == Ok::<
                AnchorView,
                Seq<char>,
            >(anchor);
        assert(trust_anchor(ders[i]) == Ok::<AnchorView, Seq<char>>(anchor));
    }
}

/// There is a configuration unless a certificate of the custom or of the bundled file is refused.
pub proof fn configuration_is_made_unless_one_is_refused(
    custom: &Option<Vec<u8>>,
    bundled: &[u8],
    native: &Vec<Vec<u8>>,
    r: Result<rustls::ClientConfig, String>,
)
    requires
        call_ensures(agent_config, (custom, bundled, native), r),
        *custom matches Some(file) ==> forall|i: int|
            0 <= i < pem_sections(file@).len() && (#[trigger] pem_sections(file@)[i]) is Some
                ==> trust_anchor(pem_sections(file@)[i]->0) is Ok,
        forall|i: int|
            0 <= i < pem_sections(bundled@).len() && (#[trigger] pem_sections(bundled@)[i]) is Some
                ==> trust_anchor(pem_sections(bundled@)[i]->0) is Ok,
    ensures
        r is Ok,
{
    let own = match *custom {
        Some(file) => usable(pem_sections(file@)),
        None => Seq::empty(),
    };
    let shared = usable(pem_sections(bundled@));
    if let Some(file) = *custom {
        assert(file.deep_view() =~= file@);
        assert forall|i: int| 0 <= i < own.len() implies trust_anchor(#[trigger] own[i]) is Ok by {
            decodable_sections_are_used(pem_sections(file@), own[i]);
            assert(own.contains(own[i]));
            let k = choose|k: int|
                0 <= k < pem_sections(file@).len() && pem_sections(file@)[k] == Some(own[i]);
            assert(pem_sections(file@)[k] is Some);
        }
    }
    assert forall|i: int| 0 <= i < shared.len() implies trust_anchor(#[trigger] shared[i]) is Ok by {
        decodable_sections_are_used(pem_sections(bundled@), shared[i]);
        assert(shared.contains(shared[i]));
        let k = choose|k: int|
            0 <= k < pem_sections(bundled@).len() && pem_sections(bundled@)[k] == Some(shared[i]);
        assert(pem_sections(bundled@)[k] is Some);
    }
    refused_certificate_is_reported(
        custom.deep_view(),
        bundled@,
        native.deep_view(),
        own,
        shared,
    );
}

} // verus!
