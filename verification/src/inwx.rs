//! The provider client: a session state machine over the remote-call codec.
//!
//! The client walks Unauthenticated → Authenticated → Closed. Every
//! operation is split into a request builder, which encodes the call
//! document for the caller to post, and a completion, which judges the
//! response body. Zone resolution pages through the account's hosted zones
//! with [`ZoneSearch`], scanning each page with [`scan_zone_page`]: an apex
//! equal to the domain wins over any suffix match on the page, and a suffix
//! match strips exactly the apex and its joining dot from the domain.

use vstd::prelude::*;
use vstd::string::StrSliceExecFns;
use crate::config::Account;
use crate::numbers::parse_i32;
use crate::numbers::spec_parse_i32;
use crate::rpc::{
    encode_chars,
    params_view,
    parsed_doc,
    response_success,
    xml_well_formed,
    xpath_string_of,
    xpath_strings_of,
    ParamV,
    RpcError,
    RpcRequest,
    RpcRequestParameter,
    RpcRequestParameterValue,
    RpcResponse,
    ValueV,
    COUNT_PATH,
    DOMAINS_PATH,
    RECORD_ID_PATH,
};
use crate::text::{is_suffix_of, str_ends_with, str_eq};

verus! {

/// The production endpoint of the provider's API.
pub const API_URL: &'static str = "https://api.domrobot.com/xmlrpc/";

/// The sandbox endpoint of the provider's API.
pub const OTE_API_URL: &'static str = "https://api.ote.domrobot.com/xmlrpc/";

/// How a domain-level operation can fail: the remote call itself failed, no
/// hosted zone covers the domain, or the record to act on does not exist.
#[derive(Debug)]
pub enum InwxError {
    RpcError(RpcError),
    DomainNotFound,
    RecordNotFound,
}

impl core::convert::From<RpcError> for InwxError {
    fn from(e: RpcError) -> (r: InwxError) {
        InwxError::RpcError(e)
    }
}

impl vstd::std_specs::convert::FromSpecImpl<RpcError> for InwxError {
    open spec fn obeys_from_spec() -> bool {
        true
    }

    open spec fn from_spec(e: RpcError) -> InwxError {
        InwxError::RpcError(e)
    }
}

/// A resolved zone: the hosted apex and the record name relative to it,
/// empty when the domain equals the apex.
#[derive(Debug)]
pub struct ZoneMatch {
    pub apex: String,
    pub name: String,
}

/// The domain ends in `"." + apex`.
pub open spec fn zone_suffix_match(d: Seq<char>, apex: Seq<char>) -> bool {
    d.len() > apex.len() && is_suffix_of(apex, d) && d[d.len() - apex.len() - 1] == '.'
}

/// Some listed apex equals the domain.
pub open spec fn has_exact(d: Seq<char>, apexes: Seq<String>) -> bool {
    exists|i: int| 0 <= i < apexes.len() && apexes[i]@ == d
}

/// Some listed apex is a proper dot-suffix of the domain.
pub open spec fn has_suffix(d: Seq<char>, apexes: Seq<String>) -> bool {
    exists|i: int| 0 <= i < apexes.len() && zone_suffix_match(d, apexes[i]@)
}

/// `z` is the first suffix match of the listing: its apex is the first listed
/// apex that is a proper dot-suffix of the domain, and its name is the domain
/// with exactly that apex and the joining dot removed.
pub open spec fn first_suffix_is(d: Seq<char>, apexes: Seq<String>, z: ZoneMatch) -> bool {
    exists|j: int|
        0 <= j < apexes.len() && zone_suffix_match(d, apexes[j]@) && (forall|k: int|
            0 <= k < j ==> !zone_suffix_match(d, apexes[k]@)) && z.apex@ == apexes[j]@
            && z.name@ == d.subrange(0, d.len() - apexes[j]@.len() - 1)
}

/// What scanning one page of the zone listing must yield: an exact match
/// takes precedence over any suffix match on the page; otherwise the first
/// suffix match in listing order wins; otherwise nothing.
pub open spec fn scan_result_ok(d: Seq<char>, apexes: Seq<String>, r: Option<ZoneMatch>) -> bool {
    &&& (has_exact(d, apexes) ==> (r matches Some(z) && z.apex@ == d && z.name@
        == Seq::<char>::empty()))
    &&& ((!has_exact(d, apexes) && has_suffix(d, apexes)) ==> (r matches Some(z)
        && first_suffix_is(d, apexes, z)))
    &&& ((!has_exact(d, apexes) && !has_suffix(d, apexes)) ==> r is None)
}

/// Scans one page of listed zone apexes for the domain's hosted zone.
pub fn scan_zone_page(domain: &str, apexes: &Vec<String>) -> (r: Option<ZoneMatch>)
    ensures
        scan_result_ok(domain@, apexes@, r),
{
    let d_len = domain.unicode_len();
    let n = apexes.len();
    let mut i: usize = 0;
    while i < n
        invariant
            i <= n,
            n == apexes@.len(),
            forall|k: int| 0 <= k < i ==> apexes@[k]@ != domain@,
        decreases n - i,
    {
        if str_eq(domain, apexes[i].as_str()) {
            let z = ZoneMatch { apex: apexes[i].clone(), name: String::new() };
            return Some(z);
        }
        i = i + 1;
    }
    assert(!has_exact(domain@, apexes@));
    let mut j: usize = 0;
    while j < n
        invariant
            j <= n,
            n == apexes@.len(),
            d_len == domain@.len(),
            !has_exact(domain@, apexes@),
            forall|k: int| 0 <= k < j ==> !zone_suffix_match(domain@, apexes@[k]@),
        decreases n - j,
    {
        let apex = &apexes[j];
        let a_len = apex.as_str().unicode_len();
        if d_len > a_len && str_ends_with(domain, apex.as_str()) && domain.get_char(
            d_len - a_len - 1,
        ) == '.' {
            assert(zone_suffix_match(domain@, apexes@[j as int]@));
            let name = domain.substring_char(0, d_len - a_len - 1).to_owned();
            let z = ZoneMatch { apex: apex.clone(), name };
            assert(first_suffix_is(domain@, apexes@, z));
            return Some(z);
        }
        assert(!zone_suffix_match(domain@, apexes@[j as int]@));
        j = j + 1;
    }
    assert(!has_suffix(domain@, apexes@));
    None
}

/// The paged search for the zone hosting a domain: one page of a fixed size
/// per remote call, stopping at the first page with a match or when the
/// listed total is exhausted.
pub struct ZoneSearch {
    pub domain: String,
    pub page: i32,
}

/// The verdict after one page: the match, a definite miss, or one more page
/// to fetch.
pub enum ZoneStep {
    Found(ZoneMatch),
    NotFound,
    NextPage,
}

/// The number of zones asked for per page.
pub const PAGE_SIZE: i32 = 20;

impl ZoneSearch {
    /// Starts a search at the first page.
    pub fn new(domain: &str) -> (s: ZoneSearch)
        ensures
            s.domain@ == domain@,
            s.page == 1,
    {
        ZoneSearch { domain: domain.to_owned(), page: 1 }
    }

    /// The listing call for the current page.
    pub fn request(&self) -> (r: RpcRequest)
        ensures
            r.method@ == "nameserver.list"@,
            r.body@ == encode_chars(
                "nameserver.list"@,
                seq![
                    ParamV { name: "pagelimit"@, value: ValueV::Int(PAGE_SIZE as int) },
                    ParamV { name: "page"@, value: ValueV::Int(self.page as int) },
                ],
            ),
    {
        let mut params: Vec<RpcRequestParameter> = Vec::new();
        params.push(
            RpcRequestParameter { name: "pagelimit", value: RpcRequestParameterValue::Int(PAGE_SIZE) },
        );
        params.push(
            RpcRequestParameter { name: "page", value: RpcRequestParameterValue::Int(self.page) },
        );
        let r = RpcRequest::new("nameserver.list", params.as_slice());
        proof {
            assert(params_view(params@) =~= seq![
                ParamV { name: "pagelimit"@, value: ValueV::Int(PAGE_SIZE as int) },
                ParamV { name: "page"@, value: ValueV::Int(self.page as int) },
            ]);
        }
        r
    }

    /// Digests one page: the extracted zone total (when the response carried
    /// one) and the page's apexes. A missing total is a definite miss; a
    /// match on the page wins; otherwise the search advances while the total
    /// says more pages exist.
    pub fn step(&mut self, count: Option<i32>, apexes: &Vec<String>) -> (r: ZoneStep)
        ensures
            final(self).domain == old(self).domain,
            count is None ==> (r is NotFound && *final(self) == *old(self)),
            (count matches Some(total) && (has_exact(old(self).domain@, apexes@) || has_suffix(
                old(self).domain@,
                apexes@,
            ))) ==> (r matches ZoneStep::Found(z) && scan_result_ok(
                old(self).domain@,
                apexes@,
                Some(z),
            ) && *final(self) == *old(self)),
            (count matches Some(total) && !has_exact(old(self).domain@, apexes@) && !has_suffix(
                old(self).domain@,
                apexes@,
            ) && total > PAGE_SIZE * old(self).page) ==> (r is NextPage && final(self).page == old(
                self,
            ).page + 1),
            (count matches Some(total) && !has_exact(old(self).domain@, apexes@) && !has_suffix(
                old(self).domain@,
                apexes@,
            ) && total <= PAGE_SIZE * old(self).page) ==> (r is NotFound && *final(self) == *old(
                self,
            )),
    {
        match count {
            None => ZoneStep::NotFound,
            Some(total) => {
                match scan_zone_page(self.domain.as_str(), apexes) {
                    Some(z) => ZoneStep::Found(z),
                    None => {
                        if (total as i64) > (self.page as i64) * (PAGE_SIZE as i64) {
                            self.page = self.page + 1;
                            ZoneStep::NextPage
                        } else {
                            ZoneStep::NotFound
                        }
                    },
                }
            },
        }
    }
}

/// The lifecycle of one authenticated session.
#[derive(Debug)]
pub enum SessionState {
    Unauthenticated,
    Authenticated,
    Closed,
}

/// A stateful client for one credential: it builds the calls of each
/// domain-level operation and digests their responses, holding the session's
/// place in the Unauthenticated → Authenticated → Closed lifecycle.
#[derive(Debug)]
pub struct Inwx {
    pub account: Account,
    pub state: SessionState,
}

impl Inwx {
    /// A fresh, not yet authenticated client for the credential.
    pub fn new(account: Account) -> (s: Inwx)
        ensures
            s.state is Unauthenticated,
            s.account == account,
    {
        Inwx { account, state: SessionState::Unauthenticated }
    }

    /// The endpoint every call of this client must go to, fixed for its
    /// lifetime by the credential's environment flag.
    pub fn url(&self) -> (r: &'static str)
        ensures
            self.account.ote ==> r@ == "https://api.ote.domrobot.com/xmlrpc/"@,
            !self.account.ote ==> r@ == "https://api.domrobot.com/xmlrpc/"@,
    {
        if self.account.ote {
            OTE_API_URL
        } else {
            API_URL
        }
    }

    /// The login call carrying the credential.
    pub fn login_request(&self) -> (r: RpcRequest)
        requires
            self.state is Unauthenticated,
        ensures
            r.method@ == "account.login"@,
            r.body@ == encode_chars(
                "account.login"@,
                seq![
                    ParamV { name: "user"@, value: ValueV::Str(self.account.username@) },
                    ParamV { name: "pass"@, value: ValueV::Str(self.account.password@) },
                ],
            ),
    {
        let mut params: Vec<RpcRequestParameter> = Vec::new();
        params.push(
            RpcRequestParameter {
                name: "user",
                value: RpcRequestParameterValue::Str(self.account.username.clone()),
            },
        );
        params.push(
            RpcRequestParameter {
                name: "pass",
                value: RpcRequestParameterValue::Str(self.account.password.clone()),
            },
        );
        let r = RpcRequest::new("account.login", params.as_slice());
        proof {
            assert(params_view(params@) =~= seq![
                ParamV { name: "user"@, value: ValueV::Str(self.account.username@) },
                ParamV { name: "pass"@, value: ValueV::Str(self.account.password@) },
            ]);
        }
        r
    }

    /// Digests the login response: the session is authenticated exactly when
    /// the login call succeeded — the response is a well-formed document with
    /// a code below 2000; on any failure it stays unusable and the error is
    /// surfaced.
    pub fn finish_login(&mut self, outcome: Result<String, RpcError>) -> (r: Result<
        (),
        InwxError,
    >)
        requires
            old(self).state is Unauthenticated,
        ensures
            final(self).account == old(self).account,
            r is Ok <==> (outcome matches Ok(text) && response_success(text@)),
            r is Ok <==> final(self).state is Authenticated,
            r is Err ==> final(self).state is Unauthenticated,
            outcome matches Err(e) ==> r == Err::<(), InwxError>(InwxError::RpcError(e)),
            (outcome matches Ok(text) && !xml_well_formed(text@)) ==> r == Err::<
                (),
                InwxError,
            >(InwxError::RpcError(RpcError::InvalidResponse)),
    {
        match outcome {
            Err(e) => Err(InwxError::RpcError(e)),
            Ok(text) => {
                match RpcResponse::new("account.login", text.as_str()) {
                    Ok(_) => {
                        self.state = SessionState::Authenticated;
                        Ok(())
                    },
                    Err(e) => Err(InwxError::RpcError(e)),
                }
            },
        }
    }

    /// Starts the paged zone search for a domain.
    pub fn zone_search(&self, domain: &str) -> (s: ZoneSearch)
        requires
            self.state is Authenticated,
        ensures
            s.domain@ == domain@,
            s.page == 1,
    {
        ZoneSearch::new(domain)
    }

    /// The record-creation call: type TXT, the resolved relative name, the
    /// content value, and the resolved zone.
    pub fn create_request(&self, zone: &ZoneMatch, content: &str) -> (r: RpcRequest)
        requires
            self.state is Authenticated,
        ensures
            r.method@ == "nameserver.createRecord"@,
            r.body@ == encode_chars(
                "nameserver.createRecord"@,
                seq![
                    ParamV { name: "type"@, value: ValueV::Str("TXT"@) },
                    ParamV { name: "name"@, value: ValueV::Str(zone.name@) },
                    ParamV { name: "content"@, value: ValueV::Str(content@) },
                    ParamV { name: "domain"@, value: ValueV::Str(zone.apex@) },
                ],
            ),
    {
        let mut params: Vec<RpcRequestParameter> = Vec::new();
        params.push(
            RpcRequestParameter {
                name: "type",
                value: RpcRequestParameterValue::Str("TXT".to_owned()),
            },
        );
        params.push(
            RpcRequestParameter {
                name: "name",
                value: RpcRequestParameterValue::Str(zone.name.clone()),
            },
        );
        params.push(
            RpcRequestParameter {
                name: "content",
                value: RpcRequestParameterValue::Str(content.to_owned()),
            },
        );
        params.push(
            RpcRequestParameter {
                name: "domain",
                value: RpcRequestParameterValue::Str(zone.apex.clone()),
            },
        );
        let r = RpcRequest::new("nameserver.createRecord", params.as_slice());
        proof {
            assert(params_view(params@) =~= seq![
                ParamV { name: "type"@, value: ValueV::Str("TXT"@) },
                ParamV { name: "name"@, value: ValueV::Str(zone.name@) },
                ParamV { name: "content"@, value: ValueV::Str(content@) },
                ParamV { name: "domain"@, value: ValueV::Str(zone.apex@) },
            ]);
        }
        r
    }

    /// The record-listing call that locates a TXT record by its resolved
    /// name and zone.
    pub fn record_info_request(&self, zone: &ZoneMatch) -> (r: RpcRequest)
        requires
            self.state is Authenticated,
        ensures
            r.method@ == "nameserver.info"@,
            r.body@ == encode_chars(
                "nameserver.info"@,
                seq![
                    ParamV { name: "type"@, value: ValueV::Str("TXT"@) },
                    ParamV { name: "name"@, value: ValueV::Str(zone.name@) },
                    ParamV { name: "domain"@, value: ValueV::Str(zone.apex@) },
                ],
            ),
    {
        let mut params: Vec<RpcRequestParameter> = Vec::new();
        params.push(
            RpcRequestParameter {
                name: "type",
                value: RpcRequestParameterValue::Str("TXT".to_owned()),
            },
        );
        params.push(
            RpcRequestParameter {
                name: "name",
                value: RpcRequestParameterValue::Str(zone.name.clone()),
            },
        );
        params.push(
            RpcRequestParameter {
                name: "domain",
                value: RpcRequestParameterValue::Str(zone.apex.clone()),
            },
        );
        let r = RpcRequest::new("nameserver.info", params.as_slice());
        proof {
            assert(params_view(params@) =~= seq![
                ParamV { name: "type"@, value: ValueV::Str("TXT"@) },
                ParamV { name: "name"@, value: ValueV::Str(zone.name@) },
                ParamV { name: "domain"@, value: ValueV::Str(zone.apex@) },
            ]);
        }
        r
    }

    /// The deletion call for a record identifier.
    pub fn delete_request(&self, id: i32) -> (r: RpcRequest)
        requires
            self.state is Authenticated,
        ensures
            r.method@ == "nameserver.deleteRecord"@,
            r.body@ == encode_chars(
                "nameserver.deleteRecord"@,
                seq![ParamV { name: "id"@, value: ValueV::Int(id as int) }],
            ),
    {
        let mut params: Vec<RpcRequestParameter> = Vec::new();
        params.push(
            RpcRequestParameter { name: "id", value: RpcRequestParameterValue::Int(id) },
        );
        let r = RpcRequest::new("nameserver.deleteRecord", params.as_slice());
        proof {
            assert(params_view(params@) =~= seq![
                ParamV { name: "id"@, value: ValueV::Int(id as int) },
            ]);
        }
        r
    }

    /// The logout call.
    pub fn logout_request(&self) -> (r: RpcRequest)
        requires
            self.state is Authenticated,
        ensures
            r.method@ == "account.logout"@,
            r.body@ == encode_chars("account.logout"@, Seq::<ParamV>::empty()),
    {
        let params: Vec<RpcRequestParameter> = Vec::new();
        let r = RpcRequest::new("account.logout", params.as_slice());
        proof {
            assert(params_view(params@) =~= Seq::<ParamV>::empty());
        }
        r
    }

    /// Digests the logout response. The session is closed regardless of the
    /// logout call's own success; the result is an error exactly when the
    /// logout call failed, but the client is unusable afterwards either way.
    pub fn finish_logout(&mut self, outcome: Result<String, RpcError>) -> (r: Result<
        (),
        InwxError,
    >)
        requires
            old(self).state is Authenticated,
        ensures
            final(self).state is Closed,
            final(self).account == old(self).account,
            r is Ok <==> (outcome matches Ok(text) && response_success(text@)),
            outcome matches Err(e) ==> r == Err::<(), InwxError>(InwxError::RpcError(e)),
            (outcome matches Ok(text) && !xml_well_formed(text@)) ==> r == Err::<
                (),
                InwxError,
            >(InwxError::RpcError(RpcError::InvalidResponse)),
    {
        self.state = SessionState::Closed;
        complete_call("account.logout", outcome)
    }
}

/// Judges the response of a call whose payload carries no further data:
/// success exactly when the response is a well-formed document with a code
/// below 2000; a transport failure or a rejected call is surfaced.
pub fn complete_call(method: &str, outcome: Result<String, RpcError>) -> (r: Result<(), InwxError>)
    ensures
        r is Ok <==> (outcome matches Ok(text) && response_success(text@)),
        outcome matches Err(e) ==> r == Err::<(), InwxError>(InwxError::RpcError(e)),
        (outcome matches Ok(text) && !xml_well_formed(text@)) ==> r == Err::<
            (),
            InwxError,
        >(InwxError::RpcError(RpcError::InvalidResponse)),
        r matches Err(k) ==> k is RpcError,
{
    match outcome {
        Err(e) => Err(InwxError::RpcError(e)),
        Ok(text) => {
            match RpcResponse::new(method, text.as_str()) {
                Ok(_) => Ok(()),
                Err(e) => Err(InwxError::RpcError(e)),
            }
        },
    }
}

/// The zone total a listing response's document carries: present when the
/// count member is there and its string parses as an i32.
pub open spec fn zone_count_of(package: sxd_document::Package) -> Option<int> {
    match xpath_string_of(package, COUNT_PATH@) {
        Some(s) => spec_parse_i32(s),
        None => None,
    }
}

/// The record identifier a record-listing body carries: the first record
/// member's id, when it is there and its string parses as an i32.
pub open spec fn record_id_of(text: Seq<char>) -> Option<int> {
    match xpath_string_of(parsed_doc(text), RECORD_ID_PATH@) {
        Some(s) => spec_parse_i32(s),
        None => None,
    }
}

/// Extracts one zone-listing page from a decoded response: the listed total,
/// when the response carried a parsable one, and the page's apexes in
/// document order.
pub fn zone_page_from(resp: &RpcResponse) -> (r: (Option<i32>, Vec<String>))
    ensures
        r.0 is Some <==> zone_count_of(resp.doc()) is Some,
        r.0 matches Some(c) ==> zone_count_of(resp.doc()) == Some(c as int),
        r.1.deep_view() == xpath_strings_of(resp.doc(), DOMAINS_PATH@),
{
    let count: Option<i32> = match resp.query_string(COUNT_PATH) {
        Some(s) => parse_i32(s.as_str()),
        None => None,
    };
    let domains = resp.query_strings(DOMAINS_PATH);
    (count, domains)
}

/// Digests a record-listing response into the first matching record's
/// identifier: the identifier is returned exactly when the call succeeded
/// and the response's first record carries a parsable id; a decoded success
/// without one means the record does not exist; a failed call is surfaced
/// as is.
pub fn record_id_from(outcome: Result<String, RpcError>) -> (r: Result<i32, InwxError>)
    ensures
        r is Ok <==> (outcome matches Ok(text) && response_success(text@) && record_id_of(text@)
            is Some),
        r matches Ok(id) ==> (outcome matches Ok(text) && record_id_of(text@) == Some(id as int)),
        (outcome matches Ok(text) && response_success(text@) && record_id_of(text@) is None)
            ==> r == Err::<i32, InwxError>(InwxError::RecordNotFound),
        outcome matches Err(e) ==> r == Err::<i32, InwxError>(InwxError::RpcError(e)),
        (outcome matches Ok(text) && !xml_well_formed(text@)) ==> r == Err::<
            i32,
            InwxError,
        >(InwxError::RpcError(RpcError::InvalidResponse)),
        r matches Err(k) ==> (k is RpcError || k is RecordNotFound),
{
    match outcome {
        Err(e) => Err(InwxError::RpcError(e)),
        Ok(text) => {
            match RpcResponse::new("nameserver.info", text.as_str()) {
                Err(e) => Err(InwxError::RpcError(e)),
                Ok(resp) => {
                    match resp.query_string(RECORD_ID_PATH) {
                        Some(s) => {
                            match parse_i32(s.as_str()) {
                                Some(id) => Ok(id),
                                None => Err(InwxError::RecordNotFound),
                            }
                        },
                        None => Err(InwxError::RecordNotFound),
                    }
                },
            }
        },
    }
}

} // verus!
