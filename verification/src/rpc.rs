//! The remote-call codec and its outcome taxonomy.
//!
//! `RpcRequest::new` builds the call document for a method and its named
//! parameters; its exact shape is pinned down by [`encode_chars`].
//! `RpcResponse::new` reads a response body: the document is parsed and
//! queried through a small set of trusted wrappers over `sxd_document` and
//! `sxd_xpath`, and the verified decision over the extracted fields is
//! [`response_outcome`].

use vstd::prelude::*;
use vstd::string::StrSliceExecFns;
use vstd::string::StringExecFns;
use crate::numbers::{int_chars, parse_i32, push_i32, spec_parse_i32};
use vstd::slice::slice_index_get;

verus! {

/// How one remote call can fail: the endpoint could not be reached or did
/// not answer usably, the answer was not a well-formed document, or the
/// provider itself rejected the call.
#[derive(Debug)]
pub enum RpcError {
    ConnectionError(String),
    InvalidResponse,
    ApiError { method: String, reason: String, msg: String },
}

/// One named parameter of a remote call.
pub struct RpcRequestParameter {
    pub name: &'static str,
    pub value: RpcRequestParameterValue,
}

/// A parameter value: the protocol carries strings and integers.
pub enum RpcRequestParameterValue {
    Str(String),
    Int(i32),
}

/// The mathematical value of a parameter value.
pub enum ValueV {
    Str(Seq<char>),
    Int(int),
}

/// The mathematical value of a named parameter.
pub struct ParamV {
    pub name: Seq<char>,
    pub value: ValueV,
}

impl View for RpcRequestParameterValue {
    type V = ValueV;

    open spec fn view(&self) -> ValueV {
        match self {
            RpcRequestParameterValue::Str(s) => ValueV::Str(s@),
            RpcRequestParameterValue::Int(i) => ValueV::Int(*i as int),
        }
    }
}

impl View for RpcRequestParameter {
    type V = ParamV;

    open spec fn view(&self) -> ParamV {
        ParamV { name: self.name@, value: self.value@ }
    }
}

/// The views of a parameter sequence.
pub open spec fn params_view(ps: Seq<RpcRequestParameter>) -> Seq<ParamV> {
    ps.map_values(|p: RpcRequestParameter| p@)
}

/// How one character is written inside document text.
pub open spec fn escape_char(c: char) -> Seq<char> {
    if c == '&' {
        "&amp;"@
    } else if c == '<' {
        "&lt;"@
    } else if c == '>' {
        "&gt;"@
    } else {
        seq![c]
    }
}

/// How a whole string is written inside document text.
pub open spec fn escape(s: Seq<char>) -> Seq<char>
    decreases s.len(),
{
    if s.len() == 0 {
        Seq::empty()
    } else {
        escape_char(s[0]) + escape(s.drop_first())
    }
}

proof fn lemma_escape_snoc(s: Seq<char>, c: char)
    ensures
        escape(s.push(c)) == escape(s) + escape_char(c),
    decreases s.len(),
{
    let t = s.push(c);
    if s.len() == 0 {
        assert(t[0] == c);
        assert(t.drop_first() =~= Seq::<char>::empty());
        assert(escape(t) == escape_char(c) + escape(t.drop_first()));
        assert(escape(t.drop_first()) == Seq::<char>::empty());
        assert(escape(s) == Seq::<char>::empty());
        assert(escape(t) =~= escape(s) + escape_char(c));
    } else {
        assert(t[0] == s[0]);
        assert(t.drop_first() =~= s.drop_first().push(c));
        lemma_escape_snoc(s.drop_first(), c);
        assert(escape(t) == escape_char(s[0]) + escape(s.drop_first().push(c)));
        assert(escape(s) == escape_char(s[0]) + escape(s.drop_first()));
        assert(escape(t) =~= escape(s) + escape_char(c));
    }
}

/// The document text of one parameter value.
pub open spec fn value_chars(v: ValueV) -> Seq<char> {
    match v {
        ValueV::Str(s) => "<string>"@ + escape(s) + "</string>"@,
        ValueV::Int(i) => "<int>"@ + int_chars(i) + "</int>"@,
    }
}

/// The document text of one structure member.
pub open spec fn member_chars(p: ParamV) -> Seq<char> {
    "<member><name>"@ + escape(p.name) + "</name><value>"@ + value_chars(p.value)
        + "</value></member>"@
}

/// The document text of all structure members, in order.
pub open spec fn members_chars(ps: Seq<ParamV>) -> Seq<char>
    decreases ps.len(),
{
    if ps.len() == 0 {
        Seq::empty()
    } else {
        member_chars(ps[0]) + members_chars(ps.drop_first())
    }
}

proof fn lemma_members_snoc(ps: Seq<ParamV>, p: ParamV)
    ensures
        members_chars(ps.push(p)) == members_chars(ps) + member_chars(p),
    decreases ps.len(),
{
    let t = ps.push(p);
    if ps.len() == 0 {
        assert(t[0] == p);
        assert(t.drop_first() =~= Seq::<ParamV>::empty());
        assert(members_chars(t) == member_chars(p) + members_chars(t.drop_first()));
        assert(members_chars(t.drop_first()) == Seq::<char>::empty());
        assert(members_chars(ps) == Seq::<char>::empty());
        assert(members_chars(t) =~= members_chars(ps) + member_chars(p));
    } else {
        assert(t[0] == ps[0]);
        assert(t.drop_first() =~= ps.drop_first().push(p));
        lemma_members_snoc(ps.drop_first(), p);
        assert(members_chars(t) == member_chars(ps[0]) + members_chars(ps.drop_first().push(p)));
        assert(members_chars(ps) == member_chars(ps[0]) + members_chars(ps.drop_first()));
        assert(members_chars(t) =~= members_chars(ps) + member_chars(p));
    }
}

/// The whole call document for a method and its parameters: a call wrapper
/// holding the method name and a single structure-valued parameter whose
/// members are the named arguments, in the given order.
pub open spec fn encode_chars(method: Seq<char>, ps: Seq<ParamV>) -> Seq<char> {
    "<?xml version=\"1.0\"?><methodCall><methodName>"@ + escape(method)
        + "</methodName><params><param><value><struct>"@ + members_chars(ps)
        + "</struct></value></param></params></methodCall>"@
}

/// Appends `s` to `out`, escaped as document text.
fn push_escaped(out: &mut String, s: &str)
    ensures
        final(out)@ == old(out)@ + escape(s@),
{
    let len = s.unicode_len();
    let mut i: usize = 0;
    assert(out@ =~= old(out)@ + escape(s@.subrange(0, 0)));
    while i < len
        invariant
            i <= len,
            len == s@.len(),
            out@ == old(out)@ + escape(s@.subrange(0, i as int)),
        decreases len - i,
    {
        let c = s.get_char(i);
        if c == '&' {
            out.append("&amp;");
        } else if c == '<' {
            out.append("&lt;");
        } else if c == '>' {
            out.append("&gt;");
        } else {
            out.push(c);
        }
        proof {
            lemma_escape_snoc(s@.subrange(0, i as int), s@[i as int]);
            assert(s@.subrange(0, i + 1) =~= s@.subrange(0, i as int).push(s@[i as int]));
            assert(out@ =~= old(out)@ + escape(s@.subrange(0, i + 1)));
        }
        i = i + 1;
    }
    assert(s@.subrange(0, len as int) =~= s@);
}

/// Appends the document text of one structure member.
fn push_member(out: &mut String, p: &RpcRequestParameter)
    ensures
        final(out)@ == old(out)@ + member_chars(p@),
{
    out.append("<member><name>");
    push_escaped(out, p.name);
    out.append("</name><value>");
    match &p.value {
        RpcRequestParameterValue::Str(s) => {
            out.append("<string>");
            push_escaped(out, s.as_str());
            out.append("</string>");
        },
        RpcRequestParameterValue::Int(v) => {
            out.append("<int>");
            push_i32(out, *v);
            out.append("</int>");
        },
    }
    out.append("</value></member>");
    assert(out@ =~= old(out)@ + member_chars(p@));
}

/// One remote call, encoded and ready to be posted.
pub struct RpcRequest {
    pub body: String,
    pub method: String,
}

impl RpcRequest {
    /// Builds the call document for `method` and `parameters`, preserving the
    /// parameter order.
    pub fn new(method: &str, parameters: &[RpcRequestParameter]) -> (r: RpcRequest)
        ensures
            r.method@ == method@,
            r.body@ == encode_chars(method@, params_view(parameters@)),
    {
        let ghost pv = params_view(parameters@);
        let mut body = String::new();
        body.append("<?xml version=\"1.0\"?><methodCall><methodName>");
        push_escaped(&mut body, method);
        body.append("</methodName><params><param><value><struct>");
        let ghost prefix = body@;
        let n = parameters.len();
        let mut i: usize = 0;
        assert(body@ =~= prefix + members_chars(pv.subrange(0, 0)));
        while i < n
            invariant
                i <= n,
                n == parameters@.len(),
                pv == params_view(parameters@),
                body@ == prefix + members_chars(pv.subrange(0, i as int)),
            decreases n - i,
        {
            let p = slice_index_get(parameters, i);
            push_member(&mut body, p);
            proof {
                assert(pv[i as int] == parameters@[i as int]@);
                lemma_members_snoc(pv.subrange(0, i as int), pv[i as int]);
                assert(pv.subrange(0, i + 1) =~= pv.subrange(0, i as int).push(pv[i as int]));
                assert(body@ =~= prefix + members_chars(pv.subrange(0, i + 1)));
            }
            i = i + 1;
        }
        assert(pv.subrange(0, n as int) =~= pv);
        body.append("</struct></value></param></params></methodCall>");
        assert(body@ =~= encode_chars(method@, pv));
        RpcRequest { body, method: method.to_owned() }
    }
}

/// The location path of the numeric response code.
pub const CODE_PATH: &'static str = "/methodResponse/params/param/value/struct/member[name/text()=\"code\"]/value/int/text()";

/// The location path of the optional human-readable message.
pub const MSG_PATH: &'static str = "/methodResponse/params/param/value/struct/member[name/text()=\"msg\"]/value/string/text()";

/// The location path of the optional failure reason.
pub const REASON_PATH: &'static str = "/methodResponse/params/param/value/struct/member[name/text()=\"reason\"]/value/string/text()";

/// The location path of the zone total in a listing response.
pub const COUNT_PATH: &'static str = "/methodResponse/params/param/value/struct/member[name/text()=\"resData\"]/value/struct/member[name/text()=\"count\"]/value/int";

/// The location path of the listed zone apexes in a listing response.
pub const DOMAINS_PATH: &'static str = "/methodResponse/params/param/value/struct/member[name/text()=\"resData\"]/value/struct/member[name/text()=\"domains\"]/value/array/data/value/struct/member[name/text()=\"domain\"]/value/string/text()";

/// The location path of the first matching record's identifier in a
/// record-listing response.
pub const RECORD_ID_PATH: &'static str = "/methodResponse/params/param/value/struct/member[name/text()=\"resData\"]/value/struct/member[name/text()=\"record\"]/value/array/data/value[1]/struct/member[name/text()=\"id\"]/value/int/text()";

/// The location paths this library evaluates. The evaluator's default
/// context registers no namespaces and panics on a path that names a
/// namespace prefix; none of these does, so the trusted wrappers admit
/// these paths and no others.
pub open spec fn known_path(path: Seq<char>) -> bool {
    ||| path == CODE_PATH@
    ||| path == MSG_PATH@
    ||| path == REASON_PATH@
    ||| path == COUNT_PATH@
    ||| path == DOMAINS_PATH@
    ||| path == RECORD_ID_PATH@
}

/// Whether a response body is a well-formed document, as the parser decides it.
pub uninterp spec fn xml_well_formed(text: Seq<char>) -> bool;

#[verifier::external_type_specification]
#[verifier::external_body]
pub struct ExPackage(sxd_document::Package);

/// The document the parser builds from a body: a function of the text alone.
pub uninterp spec fn parsed_doc(text: Seq<char>) -> sxd_document::Package;

/// The XPath string value that evaluating a location path on a document
/// yields, when evaluation succeeds: a function of document and path alone.
pub uninterp spec fn xpath_string_of(package: sxd_document::Package, path: Seq<char>) -> Option<
    Seq<char>,
>;

/// The string values, in document order, of the node set a location path
/// selects on a document: a function of document and path alone.
pub uninterp spec fn xpath_strings_of(package: sxd_document::Package, path: Seq<char>) -> Seq<
    Seq<char>,
>;

/// Relies on sxd_document::parser::parse: it returns a parsed package exactly
/// when the text is a well-formed document, and which package it returns
/// depends on the text alone.
#[verifier::external_body]
fn parse_xml(text: &str) -> (r: Option<sxd_document::Package>)
    ensures
        r is Some <==> xml_well_formed(text@),
        r matches Some(p) ==> p == parsed_doc(text@),
{
    sxd_document::parser::parse(text).ok()
}

/// Relies on sxd_xpath::evaluate_xpath: it evaluates a location path against
/// the document and yields the XPath string value of the result; a path or
/// evaluation error yields nothing. Only the library's own paths are
/// admitted: the evaluator panics on a namespace prefix, which none of them
/// carries.
#[verifier::external_body]
fn xpath_string(package: &sxd_document::Package, path: &str) -> (r: Option<String>)
    requires
        known_path(path@),
    ensures
        r is Some <==> xpath_string_of(*package, path@) is Some,
        r matches Some(s) ==> xpath_string_of(*package, path@) == Some(s@),
{
    match sxd_xpath::evaluate_xpath(&package.as_document(), path) {
        Ok(v) => Some(v.string()),
        Err(_) => None,
    }
}

/// Relies on sxd_xpath::evaluate_xpath: a path selecting a node set yields
/// those nodes; their string values are collected in document order. Only
/// the library's own paths are admitted, as for [`xpath_string`].
#[verifier::external_body]
fn xpath_strings(package: &sxd_document::Package, path: &str) -> (r: Vec<String>)
    requires
        known_path(path@),
    ensures
        r.deep_view() == xpath_strings_of(*package, path@),
{
    let mut out = Vec::new();
    if let Ok(sxd_xpath::Value::Nodeset(ns)) = sxd_xpath::evaluate_xpath(
        &package.as_document(),
        path,
    ) {
        for node in ns.document_order() {
            out.push(node.string_value());
        }
    }
    out
}

/// The code member's string value of a response body.
pub open spec fn code_of(text: Seq<char>) -> Option<Seq<char>> {
    xpath_string_of(parsed_doc(text), CODE_PATH@)
}

/// The msg member's string value of a response body.
pub open spec fn msg_of(text: Seq<char>) -> Option<Seq<char>> {
    xpath_string_of(parsed_doc(text), MSG_PATH@)
}

/// The reason member's string value of a response body.
pub open spec fn reason_of(text: Seq<char>) -> Option<Seq<char>> {
    xpath_string_of(parsed_doc(text), REASON_PATH@)
}

/// The numeric response code of a body: present when the code member is
/// there and its string parses as an i32.
pub open spec fn response_code(text: Seq<char>) -> Option<int> {
    match code_of(text) {
        Some(s) => spec_parse_i32(s),
        None => None,
    }
}

/// When a response body denotes success: it is a well-formed document whose
/// numeric code is below 2000.
pub open spec fn response_success(text: Seq<char>) -> bool {
    &&& xml_well_formed(text)
    &&& (response_code(text) matches Some(c) && c < 2000)
}

/// The extracted string, or empty when the extraction yielded nothing.
pub open spec fn extracted_or_empty(o: Option<Seq<char>>) -> Seq<char> {
    match o {
        Some(s) => s,
        None => Seq::empty(),
    }
}

/// The characters of an optional string, empty when absent.
pub open spec fn opt_chars(o: Option<String>) -> Seq<char> {
    match o {
        Some(s) => s@,
        None => Seq::empty(),
    }
}

/// The verified decision over the fields extracted from a response document:
/// a code below 2000 denotes success; any other code, or a missing one, is a
/// provider error carrying the supplied method name and the optional message
/// and reason, each defaulting to the empty string.
pub fn response_outcome(method: &str, code: Option<i32>, msg: Option<String>, reason: Option<
    String,
>) -> (r: Result<(), RpcError>)
    ensures
        r is Ok <==> (code matches Some(c) && c < 2000),
        r matches Err(e) ==> (e matches RpcError::ApiError { method: m, reason: rr, msg: mm }
            && m@ == method@ && mm@ == opt_chars(msg) && rr@ == opt_chars(reason)),
{
    match code {
        Some(c) if c < 2000 => Ok(()),
        _ => {
            let mm = match msg {
                Some(s) => s,
                None => String::new(),
            };
            let rr = match reason {
                Some(s) => s,
                None => String::new(),
            };
            Err(RpcError::ApiError { method: method.to_owned(), reason: rr, msg: mm })
        },
    }
}

/// A successfully decoded response, holding the parsed document for the
/// caller's own field extraction.
pub struct RpcResponse {
    package: sxd_document::Package,
}

impl RpcResponse {
    /// The parsed document this response holds.
    pub closed spec fn doc(&self) -> sxd_document::Package {
        self.package
    }

    /// Decodes a response body for the given method: success exactly when
    /// the body is a well-formed document whose code is below 2000; a body
    /// that does not parse is an invalid response; any other parsed body is
    /// a provider error carrying the method name and the body's message and
    /// reason, each empty when absent.
    pub fn new(method: &str, text: &str) -> (r: Result<RpcResponse, RpcError>)
        ensures
            r is Ok <==> response_success(text@),
            r matches Ok(resp) ==> resp.doc() == parsed_doc(text@),
            (r matches Err(e) && e is InvalidResponse) <==> !xml_well_formed(text@),
            r matches Err(e) ==> (e is InvalidResponse || (e matches RpcError::ApiError {
                method: m,
                reason: rr,
                msg: mm,
            } && m@ == method@ && mm@ == extracted_or_empty(msg_of(text@)) && rr@
                == extracted_or_empty(reason_of(text@)))),
    {
        match parse_xml(text) {
            None => Err(RpcError::InvalidResponse),
            Some(package) => {
                let code_s = xpath_string(&package, CODE_PATH);
                let code: Option<i32> = match &code_s {
                    Some(s) => parse_i32(s.as_str()),
                    None => None,
                };
                proof {
                    assert((code matches Some(c) && c < 2000) <==> (response_code(text@)
                        matches Some(ci) && ci < 2000));
                }
                let msg = xpath_string(&package, MSG_PATH);
                let reason = xpath_string(&package, REASON_PATH);
                proof {
                    assert(opt_chars(msg) == extracted_or_empty(msg_of(text@)));
                    assert(opt_chars(reason) == extracted_or_empty(reason_of(text@)));
                }
                match response_outcome(method, code, msg, reason) {
                    Ok(_) => Ok(RpcResponse { package }),
                    Err(e) => Err(e),
                }
            },
        }
    }

    /// Evaluates one of the library's location paths against the held
    /// document and returns the string value of the result, when the path
    /// evaluates.
    pub fn query_string(&self, path: &str) -> (r: Option<String>)
        requires
            known_path(path@),
        ensures
            r is Some <==> xpath_string_of(self.doc(), path@) is Some,
            r matches Some(s) ==> xpath_string_of(self.doc(), path@) == Some(s@),
    {
        xpath_string(&self.package, path)
    }

    /// Evaluates one of the library's location paths selecting a node set
    /// and returns the nodes' string values in document order.
    pub fn query_strings(&self, path: &str) -> (r: Vec<String>)
        requires
            known_path(path@),
        ensures
            r.deep_view() == xpath_strings_of(self.doc(), path@),
    {
        xpath_strings(&self.package, path)
    }
}

} // verus!
