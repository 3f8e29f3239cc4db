//! Search filters. Each search call reads its optional filters (null or
//! empty means "no filter"), combines the ones provided with AND, and hands
//! the host layer the filters in a fixed order. No filter at all matches
//! everything, the same as a list call.

use vstd::prelude::*;

use crate::actions::{check_client, client_step, list_outs_msg};
use crate::error::{fail, LastError, NominalErrorCode};
use crate::fields::fail_null;
use crate::handles::{failed_with, outcome, Registry};
use crate::staging::{opt_view, optional_step, read_optional};
use crate::strings::arg_view;

verus! {

/// One search filter.
#[derive(Debug)]
pub enum SearchFilter {
    /// Fuzzy full-text match on name (or title) and description.
    SearchText(String),
    /// Exact label match.
    Label(String),
    /// Property match: key and value.
    Property(String, String),
    /// Run number match.
    RunNumber(u32),
    /// Starting at or after this Unix-millisecond time.
    StartTimeInclusive(i64),
    /// Ending at or before this Unix-millisecond time.
    EndTimeInclusive(i64),
    /// Attached to this asset.
    AssetRid(String),
    /// Attached to this run.
    RunRid(String),
}

/// A search filter, as the spec sees it.
pub enum FilterView {
    SearchText(Seq<char>),
    Label(Seq<char>),
    Property(Seq<char>, Seq<char>),
    RunNumber(u32),
    StartTimeInclusive(i64),
    EndTimeInclusive(i64),
    AssetRid(Seq<char>),
    RunRid(Seq<char>),
}

impl View for SearchFilter {
    type V = FilterView;

    open spec fn view(&self) -> FilterView {
        match self {
            SearchFilter::SearchText(t) => FilterView::SearchText(t@),
            SearchFilter::Label(l) => FilterView::Label(l@),
            SearchFilter::Property(k, v) => FilterView::Property(k@, v@),
            SearchFilter::RunNumber(n) => FilterView::RunNumber(*n),
            SearchFilter::StartTimeInclusive(t) => FilterView::StartTimeInclusive(*t),
            SearchFilter::EndTimeInclusive(t) => FilterView::EndTimeInclusive(*t),
            SearchFilter::AssetRid(r) => FilterView::AssetRid(r@),
            SearchFilter::RunRid(r) => FilterView::RunRid(r@),
        }
    }
}

/// The filters of one search, combined with AND.
#[derive(Debug)]
pub struct SearchQuery {
    pub filters: Vec<SearchFilter>,
}

impl View for SearchQuery {
    type V = Seq<FilterView>;

    open spec fn view(&self) -> Seq<FilterView> {
        self.filters@.map_values(|f: SearchFilter| f@)
    }
}

/// The four filter arguments every search reads, in order.
pub open spec fn search_args_step(
    text: Option<Seq<u8>>,
    label: Option<Seq<u8>>,
    key: Option<Seq<u8>>,
    value: Option<Seq<u8>>,
) -> Result<(Option<Seq<char>>, Option<Seq<char>>, Option<Seq<char>>, Option<Seq<char>>), (NominalErrorCode, Seq<char>)> {
    match optional_step(text, "search_text"@) {
        Err(f) => Err(f),
        Ok(t) => match optional_step(label, "label"@) {
            Err(f) => Err(f),
            Ok(l) => match optional_step(key, "property_key"@) {
                Err(f) => Err(f),
                Ok(k) => match optional_step(value, "property_value"@) {
                    Err(f) => Err(f),
                    Ok(v) => Ok((t, l, k, v)),
                },
            },
        },
    }
}

/// The filter list when `o` is present, or none.
pub open spec fn maybe<A>(o: Option<A>, f: spec_fn(A) -> FilterView) -> Seq<FilterView> {
    match o {
        Some(x) => seq![f(x)],
        None => Seq::empty(),
    }
}

/// The shared filters in order — text, label, property — or the failure
/// when only one of the property key and value is given.
pub open spec fn base_filters(
    t: Option<Seq<char>>,
    l: Option<Seq<char>>,
    k: Option<Seq<char>>,
    v: Option<Seq<char>>,
) -> Result<Seq<FilterView>, (NominalErrorCode, Seq<char>)> {
    let front = maybe(t, |x: Seq<char>| FilterView::SearchText(x)) + maybe(l, |x: Seq<char>| FilterView::Label(x));
    match (k, v) {
        (Some(k), Some(v)) => Ok(front.push(FilterView::Property(k, v))),
        (None, None) => Ok(front),
        _ => Err((NominalErrorCode::InvalidArgument, "property_key and property_value must be provided together"@)),
    }
}

/// The four shared filter arguments, read in order.
#[derive(Debug)]
pub struct SearchArgs {
    pub text: Option<String>,
    pub label: Option<String>,
    pub key: Option<String>,
    pub value: Option<String>,
}

/// Reads the four filter arguments every search takes.
pub fn read_search_args(
    err: &mut LastError,
    text: Option<&[u8]>,
    label: Option<&[u8]>,
    key: Option<&[u8]>,
    value: Option<&[u8]>,
) -> (r: Result<SearchArgs, i32>)
    ensures
        match search_args_step(arg_view(text), arg_view(label), arg_view(key), arg_view(value)) {
            Ok(a) => (r matches Ok(x) && opt_view(x.text) == a.0 && opt_view(x.label) == a.1 && opt_view(x.key) == a.2
                && opt_view(x.value) == a.3) && final(err)@ == old(err)@,
            Err(f) => r matches Err(c) && failed_with(c, final(err)@, f),
        },
{
    let text = match read_optional(err, text, "search_text") {
        Ok(x) => x,
        Err(c) => {
            return Err(c);
        },
    };
    let label = match read_optional(err, label, "label") {
        Ok(x) => x,
        Err(c) => {
            return Err(c);
        },
    };
    let key = match read_optional(err, key, "property_key") {
        Ok(x) => x,
        Err(c) => {
            return Err(c);
        },
    };
    let value = match read_optional(err, value, "property_value") {
        Ok(x) => x,
        Err(c) => {
            return Err(c);
        },
    };
    Ok(SearchArgs { text, label, key, value })
}

/// Builds the shared filters — text, label, property, in that order.
pub fn base_search_filters(err: &mut LastError, args: SearchArgs) -> (r: Result<Vec<SearchFilter>, i32>)
    ensures
        match base_filters(opt_view(args.text), opt_view(args.label), opt_view(args.key), opt_view(args.value)) {
            Ok(fs) => (r matches Ok(x) && x@.map_values(|f: SearchFilter| f@) == fs) && final(err)@ == old(err)@,
            Err(f) => r matches Err(c) && failed_with(c, final(err)@, f),
        },
{
    let ghost t = opt_view(args.text);
    let ghost l = opt_view(args.label);
    let ghost front = maybe(t, |x: Seq<char>| FilterView::SearchText(x)) + maybe(l, |x: Seq<char>| FilterView::Label(x));
    let mut filters: Vec<SearchFilter> = Vec::new();
    match args.text {
        Some(x) => filters.push(SearchFilter::SearchText(x)),
        None => {},
    }
    match args.label {
        Some(x) => filters.push(SearchFilter::Label(x)),
        None => {},
    }
    proof {
        assert(filters@.map_values(|f: SearchFilter| f@) =~= front);
    }
    match (args.key, args.value) {
        (Some(k), Some(v)) => {
            filters.push(SearchFilter::Property(k, v));
            proof {
                assert(filters@.map_values(|f: SearchFilter| f@) =~= front.push(
                    FilterView::Property(opt_view(args.key).unwrap(), opt_view(args.value).unwrap()),
                ));
            }
            Ok(filters)
        },
        (None, None) => Ok(filters),
        _ => {
            proof { reveal_strlit("property_key and property_value must be provided together"); }
            Err(
                fail(
                    err,
                    NominalErrorCode::InvalidArgument,
                    String::from_str("property_key and property_value must be provided together"),
                ),
            )
        },
    }
}

/// A search of assets, datasets or videos: the client, the four filter
/// arguments, both out-parameters, then the filters.
pub open spec fn catalog_search_step<C>(
    clients: Map<i32, C>,
    client: i32,
    text: Option<Seq<u8>>,
    label: Option<Seq<u8>>,
    key: Option<Seq<u8>>,
    value: Option<Seq<u8>>,
    outs_present: bool,
) -> Result<Seq<FilterView>, (NominalErrorCode, Seq<char>)> {
    match client_step(clients, client) {
        Err(f) => Err(f),
        Ok(_) => match search_args_step(text, label, key, value) {
            Err(f) => Err(f),
            Ok(a) => if !outs_present {
                Err((NominalErrorCode::NullArgument, list_outs_msg()))
            } else {
                base_filters(a.0, a.1, a.2, a.3)
            },
        },
    }
}

/// Checks a search of assets, datasets or videos and yields its filters.
pub fn catalog_search<C>(
    clients: &Registry<C>,
    err: &mut LastError,
    client: i32,
    text: Option<&[u8]>,
    label: Option<&[u8]>,
    key: Option<&[u8]>,
    value: Option<&[u8]>,
    outs_present: bool,
) -> (r: Result<SearchQuery, i32>)
    ensures
        outcome(
            catalog_search_step(clients@, client, arg_view(text), arg_view(label), arg_view(key), arg_view(value), outs_present),
            r,
            old(err)@,
            final(err)@,
        ),
{
    match check_client(clients, err, client) {
        Ok(_) => {},
        Err(c) => {
            return Err(c);
        },
    }
    let args = match read_search_args(err, text, label, key, value) {
        Ok(a) => a,
        Err(c) => {
            return Err(c);
        },
    };
    if !outs_present {
        proof { reveal_strlit("out_list and out_count must not be null"); }
        return Err(fail_null(err, "out_list and out_count must not be null"));
    }
    match base_search_filters(err, args) {
        Ok(filters) => Ok(SearchQuery { filters }),
        Err(c) => Err(c),
    }
}

} // verus!
