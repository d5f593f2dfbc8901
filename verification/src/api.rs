//! The provider's HTTP JSON API, as seen by this crate.
//!
//! Every call to the provider answers with the same envelope: a success
//! flag, a list of error messages, and a payload that is either a list of
//! identified objects or a single one. The functions here interpret an
//! envelope together with the transport-level status code and decide what
//! a lookup or an update returned; they also build the request URLs, the
//! authentication headers and the update body. Performing the HTTP call
//! itself is the embedding program's job.

use vstd::prelude::*;

verus! {

/// An object of the provider's API that carries its assigned identifier.
pub struct ObjectWithId {
    pub id: String,
}

/// The provider's envelope around a list-shaped payload, as answered by the
/// zone and record lookup endpoints. A `result` of `None` stands for a null
/// or absent payload, which the provider may send when nothing matches.
pub struct ListResponse {
    pub success: bool,
    pub errors: Vec<String>,
    pub result: Option<Vec<ObjectWithId>>,
}

/// The provider's envelope around the single object answered by the record
/// update endpoint.
pub struct UpdateResponse {
    pub success: bool,
    pub errors: Vec<String>,
}

/// Which lookup an error came from.
#[derive(Clone, Copy, Debug, PartialEq, Eq, Structural)]
pub enum Lookup {
    Zone,
    Record,
}

/// A failure reported by the provider's API.
#[derive(Debug)]
pub enum ApiError {
    /// The transport-level status code was not 200.
    Http { status: u16 },
    /// The envelope carried `success == false`; `messages` joins the
    /// provider's error messages, each followed by a newline.
    Unsuccessful { messages: String },
    /// The envelope was successful but its payload was null or absent.
    NoResult { lookup: Lookup },
    /// The envelope was successful but its payload was an empty list.
    NoMatch { lookup: Lookup },
}

/// The provider's error messages joined, each followed by a newline.
pub open spec fn joined_messages(msgs: Seq<Seq<char>>) -> Seq<char>
    decreases msgs.len(),
{
    if msgs.len() == 0 {
        Seq::empty()
    } else {
        joined_messages(msgs.drop_last()) + msgs.last() + seq!['\n']
    }
}

/// Joins the provider's error messages, each followed by a newline.
pub fn join_errors(errors: &Vec<String>) -> (r: String)
    ensures
        r@ == joined_messages(errors.deep_view()),
{
    let ghost msgs: Seq<Seq<char>> = errors.deep_view();
    let mut r = String::new();
    let mut k: usize = 0;
    proof {
        assert(msgs.take(0) =~= Seq::<Seq<char>>::empty());
    }
    while k < errors.len()
        invariant
            k <= errors.len(),
            msgs == errors.deep_view(),
            msgs.len() == errors@.len(),
            forall|q: int| 0 <= q < msgs.len() ==> msgs[q] == errors@[q]@,
            r@ == joined_messages(msgs.take(k as int)),
        decreases errors.len() - k,
    {
        r.append(errors[k].as_str());
        r.append("\n");
        proof {
            reveal_strlit("\n");
            assert(("\n")@ =~= seq!['\n']);
            assert(msgs.take(k + 1).drop_last() =~= msgs.take(k as int));
            assert(msgs.take(k + 1).last() == msgs[k as int]);
        }
        k = k + 1;
    }
    proof {
        assert(msgs.take(errors@.len() as int) =~= msgs);
    }
    r
}

/// Interprets the answer of a list-shaped lookup endpoint: the first listed
/// object's identifier on success, a distinct error otherwise.
fn first_id(status: u16, body: &ListResponse, lookup: Lookup) -> (r: Result<String, ApiError>)
    ensures
        status != 200 ==> r == Err::<String, ApiError>((ApiError::Http { status })),
        status == 200 && !body.success ==> (r matches Err(e) && e matches ApiError::Unsuccessful {
            messages,
        } && messages@ == joined_messages(body.errors.deep_view())),
        status == 200 && body.success && body.result is None ==> r == Err::<String, ApiError>(
            (ApiError::NoResult { lookup }),
        ),
        status == 200 && body.success && body.result is Some && body.result->0@.len() == 0 ==> r
            == Err::<String, ApiError>((ApiError::NoMatch { lookup })),
        status == 200 && body.success && body.result is Some && body.result->0@.len() > 0 ==> (
        r matches Ok(id) && id@ == body.result->0@[0].id@),
{
    if status != 200 {
        return Err(ApiError::Http { status });
    }
    if !body.success {
        return Err(ApiError::Unsuccessful { messages: join_errors(&body.errors) });
    }
    match &body.result {
        None => Err(ApiError::NoResult { lookup }),
        Some(v) => {
            if v.len() == 0 {
                Err(ApiError::NoMatch { lookup })
            } else {
                Ok(v[0].id.clone())
            }
        },
    }
}

/// The zone identifier answered by the zone-list endpoint: requires status
/// 200, a successful envelope and a non-null, non-empty list, and takes the
/// first listed zone; each other outcome is a distinct [`ApiError`].
pub fn get_zone_identifier(status: u16, body: &ListResponse) -> (r: Result<String, ApiError>)
    ensures
        status != 200 ==> r == Err::<String, ApiError>((ApiError::Http { status })),
        status == 200 && !body.success ==> (r matches Err(e) && e matches ApiError::Unsuccessful {
            messages,
        } && messages@ == joined_messages(body.errors.deep_view())),
        status == 200 && body.success && body.result is None ==> r == Err::<String, ApiError>(
            (ApiError::NoResult { lookup: Lookup::Zone }),
        ),
        status == 200 && body.success && body.result is Some && body.result->0@.len() == 0 ==> r
            == Err::<String, ApiError>((ApiError::NoMatch { lookup: Lookup::Zone })),
        status == 200 && body.success && body.result is Some && body.result->0@.len() > 0 ==> (
        r matches Ok(id) && id@ == body.result->0@[0].id@),
{
    first_id(status, body, Lookup::Zone)
}

/// The record identifier answered by the record-list endpoint, under the
/// same contract as [`get_zone_identifier`].
pub fn get_dns_record_id(status: u16, body: &ListResponse) -> (r: Result<String, ApiError>)
    ensures
        status != 200 ==> r == Err::<String, ApiError>((ApiError::Http { status })),
        status == 200 && !body.success ==> (r matches Err(e) && e matches ApiError::Unsuccessful {
            messages,
        } && messages@ == joined_messages(body.errors.deep_view())),
        status == 200 && body.success && body.result is None ==> r == Err::<String, ApiError>(
            (ApiError::NoResult { lookup: Lookup::Record }),
        ),
        status == 200 && body.success && body.result is Some && body.result->0@.len() == 0 ==> r
            == Err::<String, ApiError>((ApiError::NoMatch { lookup: Lookup::Record })),
        status == 200 && body.success && body.result is Some && body.result->0@.len() > 0 ==> (
        r matches Ok(id) && id@ == body.result->0@[0].id@),
{
    first_id(status, body, Lookup::Record)
}

/// Interprets the answer of the record update endpoint: success requires
/// status 200 and a successful envelope; each other outcome is a distinct
/// [`ApiError`].
pub fn update_ddns(status: u16, body: &UpdateResponse) -> (r: Result<(), ApiError>)
    ensures
        status != 200 ==> r == Err::<(), ApiError>((ApiError::Http { status })),
        status == 200 && !body.success ==> (r matches Err(e) && e matches ApiError::Unsuccessful {
            messages,
        } && messages@ == joined_messages(body.errors.deep_view())),
        status == 200 && body.success ==> r == Ok::<(), ApiError>(()),
{
    if status != 200 {
        return Err(ApiError::Http { status });
    }
    if !body.success {
        return Err(ApiError::Unsuccessful { messages: join_errors(&body.errors) });
    }
    Ok(())
}

/// The digit character of `d`, for `d < 10`.
pub open spec fn decimal_digit(d: nat) -> char {
    if d == 0 {
        '0'
    } else if d == 1 {
        '1'
    } else if d == 2 {
        '2'
    } else if d == 3 {
        '3'
    } else if d == 4 {
        '4'
    } else if d == 5 {
        '5'
    } else if d == 6 {
        '6'
    } else if d == 7 {
        '7'
    } else if d == 8 {
        '8'
    } else {
        '9'
    }
}

/// The decimal representation of `n`, most significant digit first.
pub open spec fn decimal(n: nat) -> Seq<char>
    decreases n,
{
    if n < 10 {
        seq![decimal_digit(n)]
    } else {
        decimal(n / 10).push(decimal_digit(n % 10))
    }
}

fn digit_str(d: u16) -> (r: &'static str)
    requires
        d < 10,
    ensures
        r@ == seq![decimal_digit(d as nat)],
{
    let r: &'static str = match d {
        0 => "0",
        1 => "1",
        2 => "2",
        3 => "3",
        4 => "4",
        5 => "5",
        6 => "6",
        7 => "7",
        8 => "8",
        _ => "9",
    };
    proof {
        reveal_strlit("0");
        reveal_strlit("1");
        reveal_strlit("2");
        reveal_strlit("3");
        reveal_strlit("4");
        reveal_strlit("5");
        reveal_strlit("6");
        reveal_strlit("7");
        reveal_strlit("8");
        reveal_strlit("9");
        assert(r@ =~= seq![decimal_digit(d as nat)]);
    }
    r
}

/// Renders `n` in decimal, as in an "HTTP 404" diagnostic.
pub fn u16_decimal(n: u16) -> (r: String)
    ensures
        r@ == decimal(n as nat),
    decreases n,
{
    if n < 10 {
        digit_str(n).to_owned()
    } else {
        let p = u16_decimal(n / 10);
        let d = digit_str(n % 10);
        let r = p.concat(d);
        proof {
            assert(r@ =~= decimal((n / 10) as nat).push(decimal_digit((n % 10) as nat)));
        }
        r
    }
}

/// The diagnostic text of an [`ApiError`], variant by variant.
pub open spec fn api_error_text(e: ApiError) -> Seq<char> {
    match e {
        ApiError::Http { status } => "API Error: HTTP "@ + decimal(status as nat),
        ApiError::Unsuccessful { messages } => "API Error: "@ + messages@,
        ApiError::NoResult { lookup } => if lookup is Zone {
            "No zones returned"@
        } else {
            "No DNS records returned"@
        },
        ApiError::NoMatch { lookup } => if lookup is Zone {
            "No matching zone found"@
        } else {
            "No matching DNS record found"@
        },
    }
}

impl ApiError {
    /// Renders the error for diagnostics, carrying the provider's own
    /// messages verbatim where it reported any.
    pub fn describe(&self) -> (r: String)
        ensures
            r@ == api_error_text(*self),
    {
        match self {
            ApiError::Http { status } => {
                let mut r = String::from_str("API Error: HTTP ");
                let d = u16_decimal(*status);
                r.append(d.as_str());
                r
            },
            ApiError::Unsuccessful { messages } => {
                let mut r = String::from_str("API Error: ");
                r.append(messages.as_str());
                r
            },
            ApiError::NoResult { lookup } => match lookup {
                Lookup::Zone => String::from_str("No zones returned"),
                Lookup::Record => String::from_str("No DNS records returned"),
            },
            ApiError::NoMatch { lookup } => match lookup {
                Lookup::Zone => String::from_str("No matching zone found"),
                Lookup::Record => String::from_str("No matching DNS record found"),
            },
        }
    }
}

/// The JSON body of a record update: the zone identifier, the fixed record
/// type "A", the domain name, and the new address.
pub struct UpdateIpData {
    pub id: String,
    pub record_type: String,
    pub name: String,
    pub content: String,
}

/// Builds the update request body for setting `domain`'s address record in
/// zone `zone_id` to `ip`.
pub fn update_payload(zone_id: &str, domain: &str, ip: &str) -> (r: UpdateIpData)
    ensures
        r.id@ == zone_id@,
        r.record_type@ == "A"@,
        r.name@ == domain@,
        r.content@ == ip@,
{
    UpdateIpData {
        id: zone_id.to_owned(),
        record_type: String::from_str("A"),
        name: domain.to_owned(),
        content: ip.to_owned(),
    }
}

/// The credential the provider authenticates with: either an email and
/// key pair, or a single bearer-style token — never both.
pub enum Credential {
    EmailKey { email: String, key: String },
    Token { token: String },
}

/// The authentication headers attached to every provider request, as
/// (name, value) pairs, selected by the credential variant.
pub fn auth_headers(credential: &Credential) -> (r: Vec<(String, String)>)
    ensures
        (*credential) matches Credential::EmailKey { email, key } ==> (r@.len() == 2 && r@[0].0@
            == "X-Auth-Email"@ && r@[0].1@ == email@ && r@[1].0@ == "X-Auth-Key"@ && r@[1].1@
            == key@),
        (*credential) matches Credential::Token { token } ==> (r@.len() == 1 && r@[0].0@
            == "Authorization"@ && r@[0].1@ == "Bearer "@ + token@),
{
    let mut r: Vec<(String, String)> = Vec::new();
    match credential {
        Credential::EmailKey { email, key } => {
            r.push((String::from_str("X-Auth-Email"), email.clone()));
            r.push((String::from_str("X-Auth-Key"), key.clone()));
        },
        Credential::Token { token } => {
            let mut value = String::from_str("Bearer ");
            value.append(token.as_str());
            r.push((String::from_str("Authorization"), value));
        },
    }
    r
}

/// The URL that lists the account's zones filtered by `zone` name.
pub fn zone_list_url(zone: &str) -> (r: String)
    ensures
        r@ == "https://api.cloudflare.com/client/v4/zones?name="@ + zone@,
{
    let mut r = String::from_str("https://api.cloudflare.com/client/v4/zones?name=");
    r.append(zone);
    r
}

/// The URL that lists zone `zone_id`'s DNS records filtered by `domain`.
pub fn record_list_url(zone_id: &str, domain: &str) -> (r: String)
    ensures
        r@ == "https://api.cloudflare.com/client/v4/zones/"@ + zone_id@ + "/dns_records?name="@
            + domain@,
{
    let mut r = String::from_str("https://api.cloudflare.com/client/v4/zones/");
    r.append(zone_id);
    r.append("/dns_records?name=");
    r.append(domain);
    r
}

/// The URL that updates record `record_id` in zone `zone_id`.
pub fn record_update_url(zone_id: &str, record_id: &str) -> (r: String)
    ensures
        r@ == "https://api.cloudflare.com/client/v4/zones/"@ + zone_id@ + "/dns_records/"@
            + record_id@,
{
    let mut r = String::from_str("https://api.cloudflare.com/client/v4/zones/");
    r.append(zone_id);
    r.append("/dns_records/");
    r.append(record_id);
    r
}

} // verus!
