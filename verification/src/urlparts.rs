use vstd::prelude::*;

verus! {

// ---------------------------------------------------------------------------
// The slice of a URI this system reads.  `url::Url` itself stays outside the
// verified world: one trusted call turns a line into plain values, and all
// parsing logic is verified over those.
// ---------------------------------------------------------------------------

/// The components of one syntactically valid URI line.  Query keys and values
/// are percent-decoded; the user-info and fragment are kept verbatim.
#[derive(Debug, Clone, PartialEq)]
pub struct UrlParts {
    pub scheme: String,
    pub username: String,
    pub host: Option<String>,
    pub port: Option<u16>,
    pub query: Vec<(String, String)>,
    pub fragment: Option<String>,
}

#[verifier::ext_equal]
pub ghost struct UrlPartsV {
    pub scheme: Seq<char>,
    pub username: Seq<char>,
    pub host: Option<Seq<char>>,
    pub port: Option<u16>,
    pub query: Seq<(Seq<char>, Seq<char>)>,
    pub fragment: Option<Seq<char>>,
}

impl View for UrlParts {
    type V = UrlPartsV;

    open spec fn view(&self) -> UrlPartsV {
        UrlPartsV {
            scheme: self.scheme@,
            username: self.username@,
            host: self.host.deep_view(),
            port: self.port,
            query: self.query.deep_view(),
            fragment: self.fragment.deep_view(),
        }
    }
}

/// What `url::Url::parse` extracts from a line: its components when the line
/// is a syntactically valid URI, nothing otherwise.  The result depends on
/// the line alone.
pub uninterp spec fn url_parts_of(s: Seq<char>) -> Option<UrlPartsV>;

/// Relies on `url::Url::parse` and its accessors `scheme`, `username`,
/// `host_str`, `port`, `query_pairs` and `fragment`: a syntactically valid
/// URI is split into those components, with the query pairs percent-decoded
/// in order of appearance.
#[verifier::external_body]
pub fn split_url(line: &str) -> (r: Option<UrlParts>)
    ensures
        match r {
            Some(p) => url_parts_of(line@) == Some(p@),
            None => url_parts_of(line@) is None,
        },
{
    match url::Url::parse(line) {
        Ok(u) => Some(
            UrlParts {
                scheme: u.scheme().to_string(),
                username: u.username().to_string(),
                host: u.host_str().map(|h| h.to_string()),
                port: u.port(),
                query: u.query_pairs().map(|(k, v)| (k.to_string(), v.to_string())).collect(),
                fragment: u.fragment().map(|f| f.to_string()),
            },
        ),
        Err(_) => None,
    }
}

/// The value of the last query pair named `k`, the occurrence that wins when
/// pairs repeat.
pub open spec fn spec_query_get(q: Seq<(Seq<char>, Seq<char>)>, k: Seq<char>) -> Option<Seq<char>>
    decreases q.len(),
{
    if q.len() == 0 {
        None
    } else if q.last().0 == k {
        Some(q.last().1)
    } else {
        spec_query_get(q.drop_last(), k)
    }
}

/// Looks a key up among the query pairs; with repeated keys the last one
/// wins.
pub fn query_get<'a>(q: &'a Vec<(String, String)>, k: &str) -> (r: Option<&'a String>)
    ensures
        match r {
            Some(v) => spec_query_get(q.deep_view(), k@) == Some(v@),
            None => spec_query_get(q.deep_view(), k@) is None,
        },
{
    let mut i = q.len();
    proof {
        assert(q.deep_view().take(i as int) =~= q.deep_view());
    }
    while i > 0
        invariant
            i <= q.len(),
            spec_query_get(q.deep_view(), k@) == spec_query_get(
                q.deep_view().take(i as int),
                k@,
            ),
        decreases i,
    {
        i = i - 1;
        let pair = &q[i];
        proof {
            assert(q.deep_view().take(i + 1).last() == (q@[i as int].0@, q@[i as int].1@));
            assert(q.deep_view().take(i + 1).drop_last() =~= q.deep_view().take(i as int));
        }
        if crate::strutil::str_eq(pair.0.as_str(), k) {
            return Some(&pair.1);
        }
    }
    proof {
        assert(q.deep_view().take(0).len() == 0);
    }
    None
}

} // verus!
