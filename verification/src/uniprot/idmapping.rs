//! The upstream service's query shape, how a public query is brought into
//! it, and the wire-level request bodies and endpoint URLs.

use crate::uniprot_proxy;
use crate::wire::dec_i64;
use crate::wire::extract_string_field;
use crate::wire::form_encode;
use crate::wire::join_comma;
use crate::wire::spec_dec_i64;
use crate::wire::spec_extract_string_field;
use crate::wire::spec_form_encode;
use crate::wire::spec_join_comma;
use vstd::prelude::*;
use vstd::string::StringExecFns;

verus! {

/// The default source field name, applied when the caller names none.
pub open spec fn spec_default_from() -> Seq<char> {
    "Gene_Name"@
}

/// The default destination field name, applied when the caller names none.
pub open spec fn spec_default_to() -> Seq<char> {
    "UniProtKB-Swiss-Prot"@
}

/// The field name when present, else the given default.
pub open spec fn spec_field_or(field: Option<Seq<char>>, default: Seq<char>) -> Seq<char> {
    match field {
        Some(f) => f,
        None => default,
    }
}

/// The views of an optional string's contents.
pub open spec fn spec_opt_view(o: Option<String>) -> Option<Seq<char>> {
    match o {
        Some(s) => Some(s@),
        None => None,
    }
}

/// The mathematical content of a fully-defaulted upstream query.
pub ghost struct TranslatedQuery {
    pub from: Seq<char>,
    pub to: Seq<char>,
    pub ids: Seq<char>,
    pub tax_id: int,
}

/// What translation of a public query yields: the taxonomy id unchanged,
/// the identifiers joined with commas, and the field names defaulted where
/// absent.
pub open spec fn spec_translate(
    tax_id: int,
    ids: Seq<Seq<char>>,
    from: Option<Seq<char>>,
    to: Option<Seq<char>>,
) -> TranslatedQuery {
    TranslatedQuery {
        from: spec_field_or(from, spec_default_from()),
        to: spec_field_or(to, spec_default_to()),
        ids: spec_join_comma(ids),
        tax_id: tax_id,
    }
}

/// The translator leaves the source and destination fields set whatever the
/// input held, passes the taxonomy id through unchanged, and joins the
/// identifiers with commas; an empty identifier list joins to the empty
/// string.
pub proof fn lemma_translator_shape(
    tax_id: int,
    ids: Seq<Seq<char>>,
    from: Option<Seq<char>>,
    to: Option<Seq<char>>,
)
    ensures
        spec_translate(tax_id, ids, from, to).ids == spec_join_comma(ids),
        ids.len() == 0 ==> spec_translate(tax_id, ids, from, to).ids == Seq::<char>::empty(),
        spec_translate(tax_id, ids, from, to).tax_id == tax_id,
        from matches Some(f) ==> spec_translate(tax_id, ids, from, to).from == f,
        from is None ==> spec_translate(tax_id, ids, from, to).from == spec_default_from(),
        to matches Some(t) ==> spec_translate(tax_id, ids, from, to).to == t,
        to is None ==> spec_translate(tax_id, ids, from, to).to == spec_default_to(),
{
}

/// With both field names absent the translator defaults the source to
/// `Gene_Name` and the destination to `UniProtKB-Swiss-Prot`.
pub proof fn lemma_translator_defaults(tax_id: int, ids: Seq<Seq<char>>)
    ensures
        spec_translate(tax_id, ids, None, None).from == "Gene_Name"@,
        spec_translate(tax_id, ids, None, None).to == "UniProtKB-Swiss-Prot"@,
{
}

/// Explicitly given source and destination field names pass through the
/// translator unchanged.
pub proof fn lemma_translator_preserves_explicit(
    tax_id: int,
    ids: Seq<Seq<char>>,
    from: Seq<char>,
    to: Seq<char>,
)
    ensures
        spec_translate(tax_id, ids, Some(from), Some(to)).from == from,
        spec_translate(tax_id, ids, Some(from), Some(to)).to == to,
{
}

/// An identifier-mapping request in the upstream service's shape: the
/// identifiers joined into one comma-separated string, and the source and
/// destination field names set once translation has defaulted them.
#[derive(Default, Debug, Clone, PartialEq)]
pub struct Query {
    pub from: Option<String>,
    pub to: Option<String>,
    pub ids: String,
    pub tax_id: i64,
}

impl Query {
    /// A translated query never leaves the field names unset.
    pub open spec fn wf(&self) -> bool {
        self.from is Some && self.to is Some
    }

    /// The mathematical content of a well-formed upstream query.
    pub open spec fn model(&self) -> TranslatedQuery
        recommends
            self.wf(),
    {
        TranslatedQuery {
            from: self.from->0@,
            to: self.to->0@,
            ids: self.ids@,
            tax_id: self.tax_id as int,
        }
    }

    /// Fills an absent source field with `Gene_Name` and an absent
    /// destination field with `UniProtKB-Swiss-Prot`; set fields and the
    /// rest of the query are left unchanged.
    pub fn default_from_to(&mut self)
        ensures
            final(self).wf(),
            old(self).from is Some ==> final(self).from == old(self).from,
            old(self).from is None ==> final(self).from->0@ == spec_default_from(),
            old(self).to is Some ==> final(self).to == old(self).to,
            old(self).to is None ==> final(self).to->0@ == spec_default_to(),
            final(self).ids == old(self).ids,
            final(self).tax_id == old(self).tax_id,
    {
        if self.from.is_none() {
            self.from = Some(String::from_str("Gene_Name"));
        }
        if self.to.is_none() {
            self.to = Some(String::from_str("UniProtKB-Swiss-Prot"));
        }
    }
}

impl From<&uniprot_proxy::Query> for Query {
    /// Translates a public query into the upstream shape: identifiers
    /// joined with commas, the taxonomy id unchanged, and absent field
    /// names defaulted.
    fn from(query: &uniprot_proxy::Query) -> (r: Self)
        ensures
            r.wf(),
            r.model() == spec_translate(
                query.tax_id as int,
                query.ids.deep_view(),
                spec_opt_view(query.from),
                spec_opt_view(query.to),
            ),
    {
        let mut q = Query {
            from: query.from.clone(),
            to: query.to.clone(),
            ids: join_comma(&query.ids),
            tax_id: query.tax_id,
        };
        q.default_from_to();
        q
    }
}

impl vstd::std_specs::convert::FromSpecImpl<&uniprot_proxy::Query> for Query {
    open spec fn obeys_from_spec() -> bool {
        false
    }

    open spec fn from_spec(v: &uniprot_proxy::Query) -> Query {
        arbitrary()
    }
}

/// A job's opaque handle, as the upstream submission endpoint returns it.
#[derive(Default, Debug, PartialEq)]
pub struct JobId {
    pub job_id: String,
}

impl Clone for JobId {
    /// A clone of a job handle carries the same handle string.
    fn clone(&self) -> (r: Self)
        ensures
            r == *self,
    {
        JobId { job_id: self.job_id.clone() }
    }
}

/// A job's status string, as the upstream status endpoint reports it.
#[derive(Default, Debug, Clone, PartialEq)]
pub struct JobStatus {
    pub job_status: String,
}

/// Reads the job handle out of a submission response body.
pub fn parse_job_id(body: &str) -> (r: Option<JobId>)
    ensures
        match r {
            Some(j) => spec_extract_string_field(body@, "jobId"@) == Some(j.job_id@),
            None => spec_extract_string_field(body@, "jobId"@) is None,
        },
{
    match extract_string_field(body, "jobId") {
        Some(s) => Some(JobId { job_id: s }),
        None => None,
    }
}

/// Reads the status string out of a status response body.
pub fn parse_job_status(body: &str) -> (r: Option<JobStatus>)
    ensures
        match r {
            Some(s) => spec_extract_string_field(body@, "jobStatus"@) == Some(s.job_status@),
            None => spec_extract_string_field(body@, "jobStatus"@) is None,
        },
{
    match extract_string_field(body, "jobStatus") {
        Some(s) => Some(JobStatus { job_status: s }),
        None => None,
    }
}

/// The form-urlencoded body submitted to the upstream run endpoint: the
/// encoded field names, the encoded joined identifiers, and the taxonomy id
/// in decimal.
pub open spec fn spec_form_body(q: TranslatedQuery) -> Seq<char> {
    "from="@ + spec_form_encode(q.from) + "&to="@ + spec_form_encode(q.to) + "&ids="@
        + spec_form_encode(q.ids) + "&taxId="@ + spec_dec_i64(q.tax_id)
}

impl Query {
    /// Renders the query as the form-urlencoded submission body.
    pub fn form_body(&self) -> (r: String)
        requires
            self.wf(),
        ensures
            r@ == spec_form_body(self.model()),
    {
        let mut r = String::from_str("from=");
        let f = form_encode(self.from.as_ref().unwrap().as_str());
        r.append(f.as_str());
        r.append("&to=");
        let t = form_encode(self.to.as_ref().unwrap().as_str());
        r.append(t.as_str());
        r.append("&ids=");
        let i = form_encode(self.ids.as_str());
        r.append(i.as_str());
        r.append("&taxId=");
        let d = dec_i64(self.tax_id);
        r.append(d.as_str());
        proof {
            assert(r@ =~= spec_form_body(self.model()));
        }
        r
    }
}

/// The submission endpoint of the upstream service.
pub open spec fn spec_run_url() -> Seq<char> {
    "https://rest.uniprot.org/idmapping/run"@
}

/// The status endpoint of the upstream service for the given job.
pub open spec fn spec_status_url(job_id: Seq<char>) -> Seq<char> {
    "https://rest.uniprot.org/idmapping/status/"@ + job_id
}

/// The results endpoint of the upstream service for the given job, asking
/// for uncompressed JSON output.
pub open spec fn spec_results_url(job_id: Seq<char>) -> Seq<char> {
    "https://rest.uniprot.org/idmapping/uniprotkb/results/"@ + job_id
        + "?compressed=false&format=json"@
}

/// The URL a submission is posted to.
pub fn run_url() -> (r: String)
    ensures
        r@ == spec_run_url(),
{
    String::from_str("https://rest.uniprot.org/idmapping/run")
}

/// The URL the given job's status is polled at.
pub fn status_url(job_id: &JobId) -> (r: String)
    ensures
        r@ == spec_status_url(job_id.job_id@),
{
    let mut r = String::from_str("https://rest.uniprot.org/idmapping/status/");
    r.append(job_id.job_id.as_str());
    r
}

/// The URL the given job's result is fetched from.
pub fn results_url(job_id: &JobId) -> (r: String)
    ensures
        r@ == spec_results_url(job_id.job_id@),
{
    let mut r = String::from_str("https://rest.uniprot.org/idmapping/uniprotkb/results/");
    r.append(job_id.job_id.as_str());
    r.append("?compressed=false&format=json");
    r
}

} // verus!
