//! The report feed of one child: query parameters, the paged GET request
//! and the shape of one page.

use vstd::prelude::*;
use vstd::string::StringExecFns;

use crate::errors::{AuthError, AuthErrorCode};
use crate::http::{http_failure_error, spec_http_failure_text, HttpFailure, PreparedRequest};
use crate::options::KidsnoteOptions;
use crate::resource::{clone_images, clone_opt_image, ResourceImageModel, ResourceImageResponse};
use crate::strutil::{clone_opt_string, i32_to_string, spec_i32_digits, spec_dec_digits,
u64_to_string};
use crate::urlenc::{urlencode_pairs, urlencoded_of};

verus! {

/// Query of one reports-page request. Immutable except for `page`, the
/// server-issued cursor, which is overwritten after each page.
#[derive(Debug)]
pub struct GetReportsParam {
    pub page: Option<String>,
    pub page_size: Option<i32>,
    pub center_id: Option<u64>,
    pub cls: Option<u64>,
    pub date_start: Option<String>,
    pub date_end: Option<String>,
    pub tz: Option<String>,
}

/// Mathematical value of a reports query.
pub ghost struct ReportsParamModel {
    pub page: Option<Seq<char>>,
    pub page_size: Option<int>,
    pub center_id: Option<u64>,
    pub cls: Option<u64>,
    pub date_start: Option<Seq<char>>,
    pub date_end: Option<Seq<char>>,
    pub tz: Option<Seq<char>>,
}

impl View for GetReportsParam {
    type V = ReportsParamModel;

    open spec fn view(&self) -> ReportsParamModel {
        ReportsParamModel {
            page: self.page.deep_view(),
            page_size: match self.page_size {
                Some(n) => Some(n as int),
                None => None,
            },
            center_id: self.center_id,
            cls: self.cls,
            date_start: self.date_start.deep_view(),
            date_end: self.date_end.deep_view(),
            tz: self.tz.deep_view(),
        }
    }
}

impl Clone for GetReportsParam {
    fn clone(&self) -> (r: Self)
        ensures
            r@ == self@,
    {
        GetReportsParam {
            page: clone_opt_string(&self.page),
            page_size: self.page_size,
            center_id: self.center_id,
            cls: self.cls,
            date_start: clone_opt_string(&self.date_start),
            date_end: clone_opt_string(&self.date_end),
            tz: clone_opt_string(&self.tz),
        }
    }
}

/// The timezone sent along with a date filter.
pub open spec fn spec_filter_timezone() -> Seq<char> {
    "Asia/Seoul"@
}

impl GetReportsParam {
    /// Fresh query: first page, page size 10, no filters.
    pub fn new() -> (r: GetReportsParam)
        ensures
            r@.page is None,
            r@.page_size == Some(10int),
            r@.center_id is None,
            r@.cls is None,
            r@.date_start is None,
            r@.date_end is None,
            r@.tz is None,
    {
        GetReportsParam {
            page: None,
            page_size: Some(10),
            center_id: None,
            cls: None,
            date_start: None,
            date_end: None,
            tz: None,
        }
    }

    /// Fresh query with the run's date filter normalized: a missing start
    /// date defaults to the end date and a missing end date to the start
    /// date, and any date filter fixes the timezone to the service's
    /// regional zone; with no date given, no date fields are sent.
    pub fn new_with_date_filter(date_start: &Option<String>, date_end: &Option<String>) -> (r:
        GetReportsParam)
        ensures
            r@.page is None,
            r@.page_size == Some(10int),
            r@.center_id is None,
            r@.cls is None,
            match (date_start.deep_view(), date_end.deep_view()) {
                (Some(ds), Some(de)) => r@.date_start == Some(ds) && r@.date_end == Some(de)
                    && r@.tz == Some(spec_filter_timezone()),
                (Some(ds), None) => r@.date_start == Some(ds) && r@.date_end == Some(ds) && r@.tz
                    == Some(spec_filter_timezone()),
                (None, Some(de)) => r@.date_start == Some(de) && r@.date_end == Some(de) && r@.tz
                    == Some(spec_filter_timezone()),
                (None, None) => r@.date_start is None && r@.date_end is None && r@.tz is None,
            },
    {
        let mut param = GetReportsParam::new();
        if date_start.is_some() && date_end.is_some() {
            param.date_start = clone_opt_string(date_start);
            param.date_end = clone_opt_string(date_end);
            param.tz = Some(String::from_str("Asia/Seoul"));
        } else if date_start.is_some() {
            param.date_start = clone_opt_string(date_start);
            param.date_end = clone_opt_string(date_start);
            param.tz = Some(String::from_str("Asia/Seoul"));
        } else if date_end.is_some() {
            param.date_start = clone_opt_string(date_end);
            param.date_end = clone_opt_string(date_end);
            param.tz = Some(String::from_str("Asia/Seoul"));
        }
        param
    }
}

/// One optional query entry.
pub open spec fn spec_opt_pair(name: Seq<char>, v: Option<Seq<char>>) -> Seq<
    (Seq<char>, Seq<char>),
> {
    match v {
        Some(x) => seq![(name, x)],
        None => Seq::empty(),
    }
}

/// The key-value pairs a reports query sends, in field order, skipping
/// absent fields.
pub open spec fn spec_query_pairs(p: ReportsParamModel) -> Seq<(Seq<char>, Seq<char>)> {
    spec_opt_pair("page"@, p.page) + spec_opt_pair(
        "page_size"@,
        match p.page_size {
            Some(n) => Some(spec_i32_digits(n)),
            None => None,
        },
    ) + spec_opt_pair(
        "center_id"@,
        match p.center_id {
            Some(n) => Some(spec_dec_digits(n as int)),
            None => None,
        },
    ) + spec_opt_pair(
        "cls"@,
        match p.cls {
            Some(n) => Some(spec_dec_digits(n as int)),
            None => None,
        },
    ) + spec_opt_pair("date_start"@, p.date_start) + spec_opt_pair("date_end"@, p.date_end)
        + spec_opt_pair("tz"@, p.tz)
}

impl GetReportsParam {
    /// The query entries of this parameter set.
    #[verifier::rlimit(30)]
    pub fn to_query_pairs(&self) -> (r: Vec<(String, String)>)
        ensures
            r.deep_view() == spec_query_pairs(self@),
    {
        let mut pairs: Vec<(String, String)> = Vec::new();
        if let Some(page) = &self.page {
            pairs.push((String::from_str("page"), page.clone()));
        }
        proof {
            assert(pairs.deep_view() =~= spec_opt_pair("page"@, self@.page));
        }
        if let Some(page_size) = &self.page_size {
            pairs.push((String::from_str("page_size"), i32_to_string(*page_size)));
        }
        proof {
            assert(pairs.deep_view() =~= spec_query_pairs_prefix(self@, 2));
        }
        if let Some(center_id) = &self.center_id {
            pairs.push((String::from_str("center_id"), u64_to_string(*center_id)));
        }
        proof {
            assert(pairs.deep_view() =~= spec_query_pairs_prefix(self@, 3));
        }
        if let Some(cls) = &self.cls {
            pairs.push((String::from_str("cls"), u64_to_string(*cls)));
        }
        proof {
            assert(pairs.deep_view() =~= spec_query_pairs_prefix(self@, 4));
        }
        if let Some(date_start) = &self.date_start {
            pairs.push((String::from_str("date_start"), date_start.clone()));
        }
        proof {
            assert(pairs.deep_view() =~= spec_query_pairs_prefix(self@, 5));
        }
        if let Some(date_end) = &self.date_end {
            pairs.push((String::from_str("date_end"), date_end.clone()));
        }
        proof {
            assert(pairs.deep_view() =~= spec_query_pairs_prefix(self@, 6));
        }
        if let Some(tz) = &self.tz {
            pairs.push((String::from_str("tz"), tz.clone()));
        }
        proof {
            assert(pairs.deep_view() =~= spec_query_pairs_prefix(self@, 7));
            assert(spec_query_pairs_prefix(self@, 7) =~= spec_query_pairs(self@));
        }
        pairs
    }
}

/// The first `k` optional entries of the query, in field order.
pub open spec fn spec_query_pairs_prefix(p: ReportsParamModel, k: int) -> Seq<
    (Seq<char>, Seq<char>),
> {
    let page = spec_opt_pair("page"@, p.page);
    let page_size = spec_opt_pair(
        "page_size"@,
        match p.page_size {
            Some(n) => Some(spec_i32_digits(n)),
            None => None,
        },
    );
    let center_id = spec_opt_pair(
        "center_id"@,
        match p.center_id {
            Some(n) => Some(spec_dec_digits(n as int)),
            None => None,
        },
    );
    let cls = spec_opt_pair(
        "cls"@,
        match p.cls {
            Some(n) => Some(spec_dec_digits(n as int)),
            None => None,
        },
    );
    let date_start = spec_opt_pair("date_start"@, p.date_start);
    let date_end = spec_opt_pair("date_end"@, p.date_end);
    let tz = spec_opt_pair("tz"@, p.tz);
    if k <= 1 {
        page
    } else if k == 2 {
        page + page_size
    } else if k == 3 {
        page + page_size + center_id
    } else if k == 4 {
        page + page_size + center_id + cls
    } else if k == 5 {
        page + page_size + center_id + cls + date_start
    } else if k == 6 {
        page + page_size + center_id + cls + date_start + date_end
    } else {
        page + page_size + center_id + cls + date_start + date_end + tz
    }
}

/// One page of the report feed.
#[derive(Debug)]
pub struct ChildReportResponse {
    pub count: i32,
    /// Cursor of the next page; pagination ends when absent.
    pub next: Option<String>,
    pub previous: Option<String>,
    pub results: Vec<ChildReportDataResponse>,
}

/// One report entry of a page.
#[derive(Debug)]
pub struct ChildReportDataResponse {
    pub id: u64,
    /// Creation time, as non-leap seconds since the Unix epoch (UTC).
    pub created: i64,
    pub modified: String,
    pub date_written: String,
    pub author: ChildReportAuthorResponse,
    pub author_name: String,
    pub center: Option<u64>,
    pub cls: u64,
    pub class_name: String,
    pub child: u64,
    pub child_name: String,
    pub child_picture: Option<ResourceImageResponse>,
    pub is_sent_from_center: bool,
    pub content: Option<String>,
    pub weather: Option<String>,
    pub num_comments: i32,
    pub read_by_me: bool,
    pub read_by_parent: ChildReportReadByParentResponse,
    pub attached_images: Vec<ResourceImageResponse>,
    pub thumbnail: Option<String>,
}

/// The author record of a report.
#[derive(Debug)]
pub struct ChildReportAuthorResponse {
    pub id: u64,
    pub author_type: String,
    pub name: String,
    pub picture: Option<ResourceImageResponse>,
    pub username: String,
}

/// The read receipt of a report.
#[derive(Debug)]
pub struct ChildReportReadByParentResponse {
    pub date_read: String,
}

/// Mathematical value of an author record.
pub ghost struct AuthorModel {
    pub id: u64,
    pub author_type: Seq<char>,
    pub name: Seq<char>,
    pub picture: Option<ResourceImageModel>,
    pub username: Seq<char>,
}

impl View for ChildReportAuthorResponse {
    type V = AuthorModel;

    open spec fn view(&self) -> AuthorModel {
        AuthorModel {
            id: self.id,
            author_type: self.author_type@,
            name: self.name@,
            picture: self.picture.deep_view(),
            username: self.username@,
        }
    }
}

impl Clone for ChildReportAuthorResponse {
    fn clone(&self) -> (r: Self)
        ensures
            r@ == self@,
    {
        ChildReportAuthorResponse {
            id: self.id,
            author_type: self.author_type.clone(),
            name: self.name.clone(),
            picture: clone_opt_image(&self.picture),
            username: self.username.clone(),
        }
    }
}

/// Mathematical value of a read receipt.
pub ghost struct ReadByParentModel {
    pub date_read: Seq<char>,
}

impl View for ChildReportReadByParentResponse {
    type V = ReadByParentModel;

    open spec fn view(&self) -> ReadByParentModel {
        ReadByParentModel { date_read: self.date_read@ }
    }
}

impl Clone for ChildReportReadByParentResponse {
    fn clone(&self) -> (r: Self)
        ensures
            r@ == self@,
    {
        ChildReportReadByParentResponse { date_read: self.date_read.clone() }
    }
}

/// Mathematical value of one report entry.
pub ghost struct ReportModel {
    pub id: u64,
    pub created: int,
    pub modified: Seq<char>,
    pub date_written: Seq<char>,
    pub author: AuthorModel,
    pub author_name: Seq<char>,
    pub center: Option<u64>,
    pub cls: u64,
    pub class_name: Seq<char>,
    pub child: u64,
    pub child_name: Seq<char>,
    pub child_picture: Option<ResourceImageModel>,
    pub is_sent_from_center: bool,
    pub content: Option<Seq<char>>,
    pub weather: Option<Seq<char>>,
    pub num_comments: int,
    pub read_by_me: bool,
    pub read_by_parent: ReadByParentModel,
    pub attached_images: Seq<ResourceImageModel>,
    pub thumbnail: Option<Seq<char>>,
}

impl View for ChildReportDataResponse {
    type V = ReportModel;

    open spec fn view(&self) -> ReportModel {
        ReportModel {
            id: self.id,
            created: self.created as int,
            modified: self.modified@,
            date_written: self.date_written@,
            author: self.author@,
            author_name: self.author_name@,
            center: self.center,
            cls: self.cls,
            class_name: self.class_name@,
            child: self.child,
            child_name: self.child_name@,
            child_picture: self.child_picture.deep_view(),
            is_sent_from_center: self.is_sent_from_center,
            content: self.content.deep_view(),
            weather: self.weather.deep_view(),
            num_comments: self.num_comments as int,
            read_by_me: self.read_by_me,
            read_by_parent: self.read_by_parent@,
            attached_images: self.attached_images.deep_view(),
            thumbnail: self.thumbnail.deep_view(),
        }
    }
}

impl DeepView for ChildReportDataResponse {
    type V = ReportModel;

    open spec fn deep_view(&self) -> ReportModel {
        self@
    }
}

impl Clone for ChildReportDataResponse {
    fn clone(&self) -> (r: Self)
        ensures
            r@ == self@,
    {
        ChildReportDataResponse {
            id: self.id,
            created: self.created,
            modified: self.modified.clone(),
            date_written: self.date_written.clone(),
            author: self.author.clone(),
            author_name: self.author_name.clone(),
            center: self.center,
            cls: self.cls,
            class_name: self.class_name.clone(),
            child: self.child,
            child_name: self.child_name.clone(),
            child_picture: clone_opt_image(&self.child_picture),
            is_sent_from_center: self.is_sent_from_center,
            content: crate::strutil::clone_opt_string(&self.content),
            weather: crate::strutil::clone_opt_string(&self.weather),
            num_comments: self.num_comments,
            read_by_me: self.read_by_me,
            read_by_parent: self.read_by_parent.clone(),
            attached_images: clone_images(&self.attached_images),
            thumbnail: crate::strutil::clone_opt_string(&self.thumbnail),
        }
    }
}

/// Mathematical value of one page.
pub ghost struct PageModel {
    pub count: int,
    pub next: Option<Seq<char>>,
    pub previous: Option<Seq<char>>,
    pub results: Seq<ReportModel>,
}

impl View for ChildReportResponse {
    type V = PageModel;

    open spec fn view(&self) -> PageModel {
        PageModel {
            count: self.count as int,
            next: self.next.deep_view(),
            previous: self.previous.deep_view(),
            results: self.results.deep_view(),
        }
    }
}

impl DeepView for ChildReportResponse {
    type V = PageModel;

    open spec fn deep_view(&self) -> PageModel {
        self@
    }
}

/// Client for the report feed.
pub struct KidsnoteChildSdk {}

impl KidsnoteChildSdk {
    pub fn new() -> (r: KidsnoteChildSdk) {
        KidsnoteChildSdk {  }
    }

    /// The `GET {host}/v1_2/children/{childId}/reports/?{query}` request,
    /// authenticated with the current access token; `Unauthorized` when the
    /// session has none.
    pub fn reports_request(
        &self,
        options: &KidsnoteOptions,
        child_id: u64,
        param: Option<&GetReportsParam>,
    ) -> (r: Result<PreparedRequest, AuthError>)
        ensures
            match options@.access_token {
                Some(tok) => r matches Ok(req) && {
                    &&& req.url@ == options@.host + "/v1_2/children/"@ + spec_dec_digits(
                        child_id as int,
                    ) + "/reports/?"@ + urlencoded_of(
                        match param {
                            Some(p) => spec_query_pairs(p@),
                            None => Seq::empty(),
                        },
                    )
                    &&& req.authorization@ == tok.token_type + " "@ + tok.token
                    &&& req.content_type@ == "application/json"@
                    &&& req.body is None
                },
                None => r matches Err(AuthError::ErrorWithCode(AuthErrorCode::Unauthorized)),
            },
    {
        let access_token = match options.get_access_token_or_error() {
            Ok(t) => t,
            Err(e) => {
                return Err(e);
            },
        };
        let pairs: Vec<(String, String)> = match param {
            Some(p) => p.to_query_pairs(),
            None => Vec::new(),
        };
        proof {
            if param is None {
                assert(pairs.deep_view() =~= Seq::<(Seq<char>, Seq<char>)>::empty());
            }
        }
        let query = urlencode_pairs(&pairs);
        let mut url = options.get_host();
        url.append("/v1_2/children/");
        let id_digits = u64_to_string(child_id);
        url.append(id_digits.as_str());
        url.append("/reports/?");
        url.append(query.as_str());
        let mut authorization = access_token.token_type;
        authorization.append(" ");
        authorization.append(access_token.token.as_str());
        Ok(
            PreparedRequest {
                url,
                authorization,
                content_type: String::from_str("application/json"),
                body: None,
            },
        )
    }

    /// Map the page call's outcome: a parsed page passes through, every
    /// failure becomes the corresponding error.
    pub fn apply_reports_outcome(&self, outcome: Result<ChildReportResponse, HttpFailure>) -> (r:
        Result<ChildReportResponse, AuthError>)
        ensures
            match outcome {
                Ok(page) => r matches Ok(out) && out == page,
                Err(f) => r matches Err(AuthError::GeneralErrorStr(m)) && m@
                    == spec_http_failure_text(f),
            },
    {
        match outcome {
            Ok(page) => Ok(page),
            Err(f) => Err(http_failure_error(&f)),
        }
    }
}

} // verus!
