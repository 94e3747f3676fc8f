//! The change-submission side: the request a caller builds once per
//! invocation, the handle the provider returns, and the normalization of
//! provider-issued change identifiers.

use crate::is_terminal_spec;
use crate::is_terminal_status;
use vstd::prelude::*;
use vstd::string::StrSliceExecFns;
use vstd::string::StringExecFns;

verus! {

/// The mutation a change applies to its record set.
#[derive(Clone, Copy, Debug, PartialEq, Eq, Structural)]
pub enum ChangeAction {
    Create,
    Upsert,
    Delete,
}

/// The DNS record types the provider's vocabulary knows.
#[derive(Clone, Copy, Debug, PartialEq, Eq, Structural)]
pub enum RecordType {
    A,
    Aaaa,
    Caa,
    Cname,
    Ds,
    Https,
    Mx,
    Naptr,
    Ns,
    Ptr,
    Soa,
    Spf,
    Srv,
    Sshfp,
    Svcb,
    Tlsa,
    Txt,
}

/// The provider's word for each mutation action.
pub open spec fn change_action_name(a: ChangeAction) -> Seq<char> {
    match a {
        ChangeAction::Create => "CREATE"@,
        ChangeAction::Upsert => "UPSERT"@,
        ChangeAction::Delete => "DELETE"@,
    }
}

/// The mutation action a caller-supplied word stands for, if any.
pub open spec fn parse_change_action_spec(s: Seq<char>) -> Option<ChangeAction> {
    if s == "CREATE"@ {
        Some(ChangeAction::Create)
    } else if s == "UPSERT"@ {
        Some(ChangeAction::Upsert)
    } else if s == "DELETE"@ {
        Some(ChangeAction::Delete)
    } else {
        None
    }
}

/// The provider's word for each record type.
pub open spec fn record_type_name(t: RecordType) -> Seq<char> {
    match t {
        RecordType::A => "A"@,
        RecordType::Aaaa => "AAAA"@,
        RecordType::Caa => "CAA"@,
        RecordType::Cname => "CNAME"@,
        RecordType::Ds => "DS"@,
        RecordType::Https => "HTTPS"@,
        RecordType::Mx => "MX"@,
        RecordType::Naptr => "NAPTR"@,
        RecordType::Ns => "NS"@,
        RecordType::Ptr => "PTR"@,
        RecordType::Soa => "SOA"@,
        RecordType::Spf => "SPF"@,
        RecordType::Srv => "SRV"@,
        RecordType::Sshfp => "SSHFP"@,
        RecordType::Svcb => "SVCB"@,
        RecordType::Tlsa => "TLSA"@,
        RecordType::Txt => "TXT"@,
    }
}

/// The record type a caller-supplied word stands for, if any.
pub open spec fn parse_record_type_spec(s: Seq<char>) -> Option<RecordType> {
    if s == "A"@ {
        Some(RecordType::A)
    } else if s == "AAAA"@ {
        Some(RecordType::Aaaa)
    } else if s == "CAA"@ {
        Some(RecordType::Caa)
    } else if s == "CNAME"@ {
        Some(RecordType::Cname)
    } else if s == "DS"@ {
        Some(RecordType::Ds)
    } else if s == "HTTPS"@ {
        Some(RecordType::Https)
    } else if s == "MX"@ {
        Some(RecordType::Mx)
    } else if s == "NAPTR"@ {
        Some(RecordType::Naptr)
    } else if s == "NS"@ {
        Some(RecordType::Ns)
    } else if s == "PTR"@ {
        Some(RecordType::Ptr)
    } else if s == "SOA"@ {
        Some(RecordType::Soa)
    } else if s == "SPF"@ {
        Some(RecordType::Spf)
    } else if s == "SRV"@ {
        Some(RecordType::Srv)
    } else if s == "SSHFP"@ {
        Some(RecordType::Sshfp)
    } else if s == "SVCB"@ {
        Some(RecordType::Svcb)
    } else if s == "TLSA"@ {
        Some(RecordType::Tlsa)
    } else if s == "TXT"@ {
        Some(RecordType::Txt)
    } else {
        None
    }
}

/// Reads a mutation-action word.
pub fn parse_change_action(s: &str) -> (r: Option<ChangeAction>)
    ensures
        r == parse_change_action_spec(s@),
{
    let w: String = String::from_str(s);
    if w == String::from_str("CREATE") {
        Some(ChangeAction::Create)
    } else if w == String::from_str("UPSERT") {
        Some(ChangeAction::Upsert)
    } else if w == String::from_str("DELETE") {
        Some(ChangeAction::Delete)
    } else {
        None
    }
}

/// Reads a record-type word.
pub fn parse_record_type(s: &str) -> (r: Option<RecordType>)
    ensures
        r == parse_record_type_spec(s@),
{
    let w: String = String::from_str(s);
    if w == String::from_str("A") {
        Some(RecordType::A)
    } else if w == String::from_str("AAAA") {
        Some(RecordType::Aaaa)
    } else if w == String::from_str("CAA") {
        Some(RecordType::Caa)
    } else if w == String::from_str("CNAME") {
        Some(RecordType::Cname)
    } else if w == String::from_str("DS") {
        Some(RecordType::Ds)
    } else if w == String::from_str("HTTPS") {
        Some(RecordType::Https)
    } else if w == String::from_str("MX") {
        Some(RecordType::Mx)
    } else if w == String::from_str("NAPTR") {
        Some(RecordType::Naptr)
    } else if w == String::from_str("NS") {
        Some(RecordType::Ns)
    } else if w == String::from_str("PTR") {
        Some(RecordType::Ptr)
    } else if w == String::from_str("SOA") {
        Some(RecordType::Soa)
    } else if w == String::from_str("SPF") {
        Some(RecordType::Spf)
    } else if w == String::from_str("SRV") {
        Some(RecordType::Srv)
    } else if w == String::from_str("SSHFP") {
        Some(RecordType::Sshfp)
    } else if w == String::from_str("SVCB") {
        Some(RecordType::Svcb)
    } else if w == String::from_str("TLSA") {
        Some(RecordType::Tlsa)
    } else if w == String::from_str("TXT") {
        Some(RecordType::Txt)
    } else {
        None
    }
}

impl ChangeAction {
    /// The provider's word for this action, for callers that speak to the
    /// provider in strings.
    pub fn name(&self) -> (r: String)
        ensures
            r@ == change_action_name(*self),
    {
        match self {
            ChangeAction::Create => String::from_str("CREATE"),
            ChangeAction::Upsert => String::from_str("UPSERT"),
            ChangeAction::Delete => String::from_str("DELETE"),
        }
    }
}

impl RecordType {
    /// The provider's word for this record type.
    pub fn name(&self) -> (r: String)
        ensures
            r@ == record_type_name(*self),
    {
        match self {
            RecordType::A => String::from_str("A"),
            RecordType::Aaaa => String::from_str("AAAA"),
            RecordType::Caa => String::from_str("CAA"),
            RecordType::Cname => String::from_str("CNAME"),
            RecordType::Ds => String::from_str("DS"),
            RecordType::Https => String::from_str("HTTPS"),
            RecordType::Mx => String::from_str("MX"),
            RecordType::Naptr => String::from_str("NAPTR"),
            RecordType::Ns => String::from_str("NS"),
            RecordType::Ptr => String::from_str("PTR"),
            RecordType::Soa => String::from_str("SOA"),
            RecordType::Spf => String::from_str("SPF"),
            RecordType::Srv => String::from_str("SRV"),
            RecordType::Sshfp => String::from_str("SSHFP"),
            RecordType::Svcb => String::from_str("SVCB"),
            RecordType::Tlsa => String::from_str("TLSA"),
            RecordType::Txt => String::from_str("TXT"),
        }
    }
}

/// Caller-supplied parameters of one record mutation, as they arrive from
/// the command line: words not yet parsed, nothing yet validated.
pub struct UpdateRecordParams {
    /// Zone identifier.
    pub hosted_zone_id: String,
    /// Fully-qualified DNS name of the record.
    pub dns_name: String,
    /// Record type word (`A`, `CNAME`, `TXT`, ...).
    pub record_type: String,
    /// Mutation action word (`CREATE`, `UPSERT`, `DELETE`).
    pub action: String,
    /// Record values; at least one is required.
    pub value: Vec<String>,
    /// Time-to-live in seconds.
    pub ttl: i64,
    /// Optional free-text comment attached to the change batch.
    pub comment: Option<String>,
    /// Do not wait for the change to propagate.
    pub no_wait: bool,
    /// Seconds to sleep between completion checks.
    pub sleep_time: u64,
    /// Most seconds to wait for completion before giving up.
    pub max_wait: u64,
}

/// One validated record mutation, ready to be sent to the provider as a
/// single-change batch.
pub struct ChangeRequest {
    pub hosted_zone_id: String,
    pub dns_name: String,
    pub record_type: RecordType,
    pub action: ChangeAction,
    pub values: Vec<String>,
    pub ttl: i64,
    pub comment: Option<String>,
}

/// Why caller-supplied parameters cannot form a change request.
#[derive(Clone, Copy, Debug, PartialEq, Eq, Structural)]
pub enum RequestError {
    EmptyZoneId,
    EmptyDnsName,
    EmptyValues,
    NegativeTtl,
    UnknownAction,
    UnknownRecordType,
}

impl ChangeRequest {
    /// What every constructed request satisfies: the provider requires a
    /// zone, a record name, at least one value, and a non-negative TTL.
    pub open spec fn wf(self) -> bool {
        &&& self.hosted_zone_id@.len() > 0
        &&& self.dns_name@.len() > 0
        &&& self.values@.len() > 0
        &&& self.ttl >= 0
    }

    /// Validates caller-supplied parameters and builds the request. Exactly
    /// the parameters with a zone, a name, at least one value, a
    /// non-negative TTL and known action and record-type words are
    /// accepted; the first broken constraint, in that order, names the
    /// error.
    pub fn from_params(params: UpdateRecordParams) -> (r: Result<ChangeRequest, RequestError>)
        ensures
            r is Ok <==> {
                &&& params.hosted_zone_id@.len() > 0
                &&& params.dns_name@.len() > 0
                &&& params.value@.len() > 0
                &&& params.ttl >= 0
                &&& parse_change_action_spec(params.action@) is Some
                &&& parse_record_type_spec(params.record_type@) is Some
            },
            match r {
                Ok(req) => {
                    &&& req.wf()
                    &&& req.hosted_zone_id == params.hosted_zone_id
                    &&& req.dns_name == params.dns_name
                    &&& Some(req.record_type) == parse_record_type_spec(params.record_type@)
                    &&& Some(req.action) == parse_change_action_spec(params.action@)
                    &&& req.values == params.value
                    &&& req.ttl == params.ttl
                    &&& req.comment == params.comment
                },
                Err(e) => e == (if params.hosted_zone_id@.len() == 0 {
                    RequestError::EmptyZoneId
                } else if params.dns_name@.len() == 0 {
                    RequestError::EmptyDnsName
                } else if params.value@.len() == 0 {
                    RequestError::EmptyValues
                } else if params.ttl < 0 {
                    RequestError::NegativeTtl
                } else if parse_change_action_spec(params.action@) is None {
                    RequestError::UnknownAction
                } else {
                    RequestError::UnknownRecordType
                }),
            },
    {
        if params.hosted_zone_id.as_str().is_empty() {
            return Err(RequestError::EmptyZoneId);
        }
        if params.dns_name.as_str().is_empty() {
            return Err(RequestError::EmptyDnsName);
        }
        if params.value.len() == 0 {
            return Err(RequestError::EmptyValues);
        }
        if params.ttl < 0 {
            return Err(RequestError::NegativeTtl);
        }
        let action = match parse_change_action(params.action.as_str()) {
            Some(a) => a,
            None => {
                return Err(RequestError::UnknownAction);
            },
        };
        let record_type = match parse_record_type(params.record_type.as_str()) {
            Some(t) => t,
            None => {
                return Err(RequestError::UnknownRecordType);
            },
        };
        Ok(
            ChangeRequest {
                hosted_zone_id: params.hosted_zone_id,
                dns_name: params.dns_name,
                record_type,
                action,
                values: params.value,
                ttl: params.ttl,
                comment: params.comment,
            },
        )
    }
}

/// What a submission response carries: the provider-issued change
/// identifier, possibly path-prefixed, and the status reported inline.
pub struct ChangeHandle {
    pub id: String,
    pub status: String,
}

/// What happens after a successful submission.
pub enum SubmitDecision {
    /// The caller is done: it asked not to wait, or the inline status was
    /// already terminal.
    Finished,
    /// The change must be polled, under this normalized identifier.
    Poll(String),
}

/// Decides what follows a successful submission: a caller that asked not
/// to wait is done, a response whose inline status is already terminal
/// needs no polling, and otherwise the provider-issued identifier, brought
/// into normal form exactly once here, goes to the poller.
pub fn after_submission(no_wait: bool, handle: &ChangeHandle) -> (d: SubmitDecision)
    ensures
        no_wait || is_terminal_spec(handle.status@) ==> d == SubmitDecision::Finished,
        !(no_wait || is_terminal_spec(handle.status@)) ==> (d matches SubmitDecision::Poll(id)
            && id@ == normalized_id(handle.id@)),
{
    if no_wait {
        SubmitDecision::Finished
    } else if is_terminal_status(handle.status.as_str()) {
        SubmitDecision::Finished
    } else {
        SubmitDecision::Poll(normalize_change_id(handle.id.as_str()))
    }
}

/// A change identifier is bare when it carries no path separator.
pub open spec fn bare_id(s: Seq<char>) -> bool {
    forall|i: int| 0 <= i < s.len() ==> s[i] != '/'
}

/// The normal form of a change identifier: the part after the last path
/// separator, the whole string when there is none. The provider issues
/// identifiers such as `/change/C123` in submission responses but expects
/// the bare `C123` in status queries.
pub open spec fn normalized_id(s: Seq<char>) -> Seq<char>
    decreases s.len(),
{
    if s.len() == 0 {
        s
    } else if s.last() == '/' {
        Seq::<char>::empty()
    } else {
        normalized_id(s.drop_last()).push(s.last())
    }
}

/// The normal form of an identifier is the suffix that follows a separator,
/// so it is itself bare.
pub proof fn lemma_normalized_id_bare(s: Seq<char>)
    ensures
        bare_id(normalized_id(s)),
    decreases s.len(),
{
    if s.len() == 0 {
    } else if s.last() == '/' {
    } else {
        lemma_normalized_id_bare(s.drop_last());
    }
}

/// A bare identifier is already in normal form.
pub proof fn lemma_bare_id_normalized(s: Seq<char>)
    requires
        bare_id(s),
    ensures
        normalized_id(s) == s,
    decreases s.len(),
{
    if s.len() == 0 {
    } else {
        assert(s.drop_last() =~= s.subrange(0, s.len() - 1));
        lemma_bare_id_normalized(s.drop_last());
        assert(normalized_id(s.drop_last()).push(s.last()) =~= s);
    }
}

/// Normalization is idempotent: a second application changes nothing.
pub proof fn lemma_normalized_id_idempotent(s: Seq<char>)
    ensures
        normalized_id(normalized_id(s)) == normalized_id(s),
{
    lemma_normalized_id_bare(s);
    lemma_bare_id_normalized(normalized_id(s));
}

/// An identifier that is non-empty and does not end in a separator keeps a
/// non-empty normal form; in particular the provider's prefixed identifiers
/// never normalize to the empty string.
pub proof fn lemma_normalized_id_nonempty(s: Seq<char>)
    requires
        s.len() > 0,
        s.last() != '/',
    ensures
        normalized_id(s).len() > 0,
{
}

/// Past a position `k` that sits just after the last separator (or at the
/// start when there is none), the normal form is exactly the tail of the
/// string from `k`.
proof fn lemma_normalized_id_is_suffix(s: Seq<char>, k: int)
    requires
        0 <= k <= s.len(),
        k > 0 ==> s[k - 1] == '/',
        forall|j: int| k <= j < s.len() ==> s[j] != '/',
    ensures
        normalized_id(s) == s.subrange(k, s.len() as int),
    decreases s.len(),
{
    if s.len() == 0 {
        assert(normalized_id(s) =~= s.subrange(0, 0));
    } else if k == s.len() {
        assert(s.last() == '/');
        assert(normalized_id(s) =~= s.subrange(k, s.len() as int));
    } else {
        assert(s.last() != '/');
        lemma_normalized_id_is_suffix(s.drop_last(), k);
        assert(s.drop_last().subrange(k, s.len() - 1) =~= s.subrange(k, s.len() - 1));
        assert(normalized_id(s) =~= s.subrange(k, s.len() as int));
    }
}

/// Brings a provider-issued change identifier into its normal form: the
/// part after the last path separator, for example `/change/C123` becomes
/// `C123`, and an already-bare identifier comes back unchanged.
pub fn normalize_change_id(id: &str) -> (r: String)
    ensures
        r@ == normalized_id(id@),
{
    let n: usize = id.unicode_len();
    let mut start: usize = 0;
    let mut i: usize = 0;
    while i < n
        invariant
            n == id@.len(),
            0 <= start <= i <= n,
            start > 0 ==> id@[start - 1] == '/',
            forall|j: int| start <= j < i ==> id@[j] != '/',
        decreases n - i,
    {
        if id.get_char(i) == '/' {
            start = i + 1;
        }
        i = i + 1;
    }
    let suffix: &str = id.substring_char(start, n);
    proof {
        lemma_normalized_id_is_suffix(id@, start as int);
    }
    String::from_str(suffix)
}

} // verus!
