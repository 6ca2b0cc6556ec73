//! The paged report fetcher: walk the cursor-based report feed of one
//! child, map each page's entries into download sources (resolving center
//! names), and stop when a page carries no further cursor or no results —
//! or when the safety fuse against runaway pagination trips.
//!
//! The application issues the actual page requests; it consults
//! [`ReportFetchState`] before each one and feeds every response back. The
//! same stepping, run over a given sequence of pages at once, is
//! [`fetch_reports_from_pages`], whose contract pins the number of requests
//! and every produced source.

use std::collections::HashMap;

use vstd::prelude::*;

use crate::child::{ChildReportDataResponse, ChildReportResponse, GetReportsParam, PageModel,
ReportModel, ReportsParamModel};
use crate::download::{DownloadSource, SourceModel};
use crate::strutil::clone_opt_string;
use crate::user::MeInfoChildEnrollment;

verus! {

/// Maximum number of report pages walked for one child: a safety fuse
/// against malformed or circular server pagination, not a business rule.
pub const PAGE_LOOP_LIMIT: u64 = 10000;

/// `true` if some enrollment carries this center id.
pub open spec fn spec_has_center(es: Seq<MeInfoChildEnrollment>, cid: u64) -> bool {
    exists|i: int| 0 <= i < es.len() && #[trigger] es[i].center_id == cid
}

/// The center name of the first enrollment carrying this center id.
pub open spec fn spec_first_center_name(es: Seq<MeInfoChildEnrollment>, cid: u64) -> Seq<char>
    decreases es.len(),
{
    if es.len() == 0 {
        Seq::empty()
    } else if es[0].center_id == cid {
        es[0].center_name@
    } else {
        spec_first_center_name(es.drop_first(), cid)
    }
}

proof fn lemma_first_center_name_at(es: Seq<MeInfoChildEnrollment>, cid: u64, i: int)
    requires
        0 <= i < es.len(),
        es[i].center_id == cid,
        forall|k: int| 0 <= k < i ==> es[k].center_id != cid,
    ensures
        spec_first_center_name(es, cid) == es[i].center_name@,
    decreases i,
{
    if i > 0 {
        lemma_first_center_name_at(es.drop_first(), cid, i - 1);
    }
}

/// Build the center lookup of one child from its enrollments: each center
/// id maps to the center name of its first enrollment.
pub fn build_center_lookup(enrollments: &Vec<MeInfoChildEnrollment>) -> (r: HashMap<u64, String>)
    ensures
        forall|cid: u64| r@.contains_key(cid) <==> spec_has_center(enrollments@, cid),
        forall|cid: u64|
            r@.contains_key(cid) ==> #[trigger] r@[cid]@ == spec_first_center_name(
                enrollments@,
                cid,
            ),
{
    let mut map: HashMap<u64, String> = HashMap::new();
    let mut i: usize = 0;
    while i < enrollments.len()
        invariant
            i <= enrollments@.len(),
            forall|cid: u64|
                map@.contains_key(cid) <==> spec_has_center(enrollments@.take(i as int), cid),
            forall|cid: u64|
                map@.contains_key(cid) ==> #[trigger] map@[cid]@ == spec_first_center_name(
                    enrollments@,
                    cid,
                ),
            forall|cid: u64|
                spec_has_center(enrollments@.take(i as int), cid) ==> spec_has_center(
                    enrollments@,
                    cid,
                ),
        decreases enrollments@.len() - i,
    {
        let enroll = &enrollments[i];
        if !map.contains_key(&enroll.center_id) {
            proof {
                let pre = enrollments@.take(i as int);
                assert(forall|k: int|
                    0 <= k < i ==> #[trigger] enrollments@[k].center_id != enroll.center_id) by {
                    assert(forall|k: int|
                        0 <= k < i ==> pre[k] == #[trigger] enrollments@[k]);
                }
                lemma_first_center_name_at(enrollments@, enroll.center_id, i as int);
            }
            map.insert(enroll.center_id, enroll.center_name.clone());
        }
        proof {
            let pre = enrollments@.take(i as int);
            let cur = enrollments@.take(i + 1);
            assert(forall|k: int| 0 <= k < i ==> pre[k] == #[trigger] cur[k]);
            assert(cur[i as int] == enrollments@[i as int]);
            assert(forall|cid: u64|
                spec_has_center(cur, cid) <==> (spec_has_center(pre, cid) || cid
                    == enrollments@[i as int].center_id));
        }
        i = i + 1;
    }
    proof {
        assert(enrollments@.take(enrollments@.len() as int) =~= enrollments@);
    }
    map
}

/// The resolved center name of a report: the looked-up name when the
/// report carries a center id known to the lookup, the empty string
/// otherwise.
pub open spec fn spec_resolved_center(center: Option<u64>, cm: Map<u64, String>) -> Seq<char> {
    match center {
        Some(cid) => if cm.contains_key(cid) {
            cm[cid]@
        } else {
            Seq::empty()
        },
        None => Seq::empty(),
    }
}

/// The download source one report entry becomes, for a given child and
/// center lookup.
pub open spec fn spec_source_of_report(
    report: ReportModel,
    child_id: u64,
    child_name: Seq<char>,
    cm: Map<u64, String>,
) -> SourceModel {
    SourceModel {
        source_type: "알림장"@,
        source_id: report.id,
        report_date: report.created,
        report_content: report.content,
        author_name: report.author_name,
        center_name: Some(spec_resolved_center(report.center, cm)),
        class_id: report.cls,
        class_name: report.class_name,
        child_id: child_id,
        child_name: child_name,
        attached_images: report.attached_images,
    }
}

/// Turn one report entry into a download source, resolving the center name
/// through the lookup (empty when unresolved).
pub fn map_report_to_source(
    report: ChildReportDataResponse,
    child_id: u64,
    child_name: &String,
    center_map: &HashMap<u64, String>,
) -> (s: DownloadSource)
    ensures
        s@ == spec_source_of_report(report@, child_id, child_name@, center_map@),
{
    let center_name: Option<String> = match report.center {
        Some(cid) => match center_map.get(&cid) {
            Some(name) => Some(name.clone()),
            None => Some(String::new()),
        },
        None => Some(String::new()),
    };
    DownloadSource {
        source_type: String::from_str("알림장"),
        source_id: report.id,
        report_date: report.created,
        report_content: report.content,
        author_name: report.author_name,
        center_name,
        class_id: report.cls,
        class_name: report.class_name,
        child_id,
        child_name: child_name.clone(),
        attached_images: report.attached_images,
    }
}

/// Turn one page's entries into download sources, in order.
pub fn map_page_to_sources(
    results: Vec<ChildReportDataResponse>,
    child_id: u64,
    child_name: &String,
    center_map: &HashMap<u64, String>,
) -> (r: Vec<DownloadSource>)
    ensures
        r.deep_view() == results.deep_view().map_values(
            |rep: ReportModel| spec_source_of_report(rep, child_id, child_name@, center_map@),
        ),
{
    let mut results = results;
    let ghost all = results.deep_view();
    let mut rev: Vec<DownloadSource> = Vec::new();
    while results.len() > 0
        invariant
            results.deep_view() =~= all.take(results@.len() as int),
            rev@.len() + results@.len() == all.len(),
            forall|j: int|
                0 <= j < rev@.len() ==> #[trigger] rev.deep_view()[j] == spec_source_of_report(
                    all[all.len() - 1 - j],
                    child_id,
                    child_name@,
                    center_map@,
                ),
        decreases results@.len(),
    {
        let ghost before_dv = results.deep_view();
        let ghost before_len = results@.len();
        let report = results.pop().unwrap();
        proof {
            assert(report@ == before_dv[before_len - 1]);
            assert(report@ == all[results@.len() as int]);
            assert(results.deep_view() =~= all.take(results@.len() as int));
        }
        let s = map_report_to_source(report, child_id, child_name, center_map);
        let ghost rev_before = rev.deep_view();
        rev.push(s);
        proof {
            assert(rev.deep_view() =~~= rev_before.push(s@));
        }
    }
    let mut out: Vec<DownloadSource> = Vec::new();
    while rev.len() > 0
        invariant
            out@.len() + rev@.len() == all.len(),
            forall|j: int|
                0 <= j < rev@.len() ==> #[trigger] rev.deep_view()[j] == spec_source_of_report(
                    all[all.len() - 1 - j],
                    child_id,
                    child_name@,
                    center_map@,
                ),
            forall|j: int|
                0 <= j < out@.len() ==> #[trigger] out.deep_view()[j] == spec_source_of_report(
                    all[j],
                    child_id,
                    child_name@,
                    center_map@,
                ),
        decreases rev@.len(),
    {
        let ghost rev_before = rev.deep_view();
        let s = rev.pop().unwrap();
        proof {
            assert(s@ == rev_before[rev_before.len() - 1]);
            assert(rev.deep_view() =~~= rev_before.take(rev_before.len() - 1));
            assert(s@ == spec_source_of_report(
                all[out@.len() as int],
                child_id,
                child_name@,
                center_map@,
            ));
        }
        let ghost out_before = out.deep_view();
        out.push(s);
        proof {
            assert(out.deep_view() =~~= out_before.push(s@));
        }
    }
    proof {
        assert(out.deep_view() =~~= all.map_values(
            |rep: ReportModel| spec_source_of_report(rep, child_id, child_name@, center_map@),
        ));
    }
    out
}

/// State of the paged fetch of one child.
pub struct ReportFetchState {
    /// The query of the next request; `param.page` holds the cursor.
    pub param: GetReportsParam,
    /// Pages consumed so far.
    pub pages_fetched: u64,
    /// No further request is to be made.
    pub finished: bool,
}

impl ReportFetchState {
    /// The fuse keeps the page counter in range while the fetch runs.
    pub open spec fn wf(&self) -> bool {
        !self.finished ==> self.pages_fetched <= PAGE_LOOP_LIMIT
    }

    /// Start a fetch with the given query (its cursor empty: the first
    /// page).
    pub fn new(param: GetReportsParam) -> (r: ReportFetchState)
        ensures
            r.param == param,
            r.pages_fetched == 0,
            !r.finished,
            r.wf(),
    {
        ReportFetchState { param, pages_fetched: 0, finished: false }
    }

    /// Consume one page header: take over the server's cursor (dropped
    /// when the page carried no results), and stop when the cursor is
    /// absent, the page was empty, or the fuse trips.
    pub fn on_page(&mut self, next: Option<String>, results_empty: bool)
        requires
            old(self).wf(),
            !old(self).finished,
        ensures
            final(self).pages_fetched == old(self).pages_fetched + 1,
            final(self).finished == (results_empty || next is None || old(self).pages_fetched + 1
                > PAGE_LOOP_LIMIT),
            final(self).param@ == (ReportsParamModel {
                page: if results_empty {
                    None
                } else {
                    next.deep_view()
                },
                ..old(self).param@
            }),
            final(self).wf(),
    {
        self.pages_fetched = self.pages_fetched + 1;
        let next_is_none = next.is_none();
        if results_empty {
            self.param.page = None;
        } else {
            self.param.page = next;
        }
        if results_empty || next_is_none || self.pages_fetched > PAGE_LOOP_LIMIT {
            self.finished = true;
        }
    }

    /// Cancel the fetch: no further page request is made. Checked before
    /// each network call, this bounds shutdown latency to one page.
    pub fn cancel(&mut self)
        ensures
            final(self).finished,
            final(self).pages_fetched == old(self).pages_fetched,
            final(self).param == old(self).param,
    {
        self.finished = true;
    }

    /// A page request failed: pagination for this child is over; the error
    /// is the caller's to propagate.
    pub fn on_error(&mut self)
        requires
            old(self).wf(),
            !old(self).finished,
        ensures
            final(self).pages_fetched == old(self).pages_fetched + 1,
            final(self).finished,
            final(self).param@ == (ReportsParamModel { page: None, ..old(self).param@ }),
            final(self).wf(),
    {
        self.pages_fetched = self.pages_fetched + 1;
        self.param.page = None;
        self.finished = true;
    }
}

/// A page at which pagination stops: no further cursor, or no results.
pub open spec fn spec_page_stops(p: PageModel) -> bool {
    p.next is None || p.results.len() == 0
}

/// Index of the first page at which pagination stops, or the number of
/// pages when none does.
pub open spec fn spec_first_stop(pages: Seq<PageModel>, k: int) -> int
    decreases pages.len() - k,
{
    if k < 0 || k >= pages.len() {
        pages.len() as int
    } else if spec_page_stops(pages[k]) {
        k
    } else {
        spec_first_stop(pages, k + 1)
    }
}

/// The outcome of a full paged fetch.
pub struct FetchRun {
    /// Number of page requests issued.
    pub requests: usize,
    /// One batch of download sources per consumed page, in order.
    pub batches: Vec<Vec<DownloadSource>>,
}

/// Run the paged fetch over the pages a server would return: `pages[k]`
/// answers the `k`-th request. Pagination consumes pages up to and
/// including the first one that stops it (an absent cursor or an empty
/// result list) and issues exactly that many requests; every entry of
/// every consumed page becomes one download source, in order. The first
/// stopping page must lie within the pagination fuse: on a longer
/// sequence the stepped fetch cuts off at [`PAGE_LOOP_LIMIT`] pages
/// instead of reaching it.
pub fn fetch_reports_from_pages(
    pages: &Vec<ChildReportResponse>,
    child_id: u64,
    child_name: &String,
    center_map: &HashMap<u64, String>,
    param: GetReportsParam,
) -> (r: FetchRun)
    requires
        spec_first_stop(pages.deep_view(), 0) < pages.deep_view().len(),
        spec_first_stop(pages.deep_view(), 0) + 1 <= PAGE_LOOP_LIMIT,
    ensures
        r.requests == spec_first_stop(pages.deep_view(), 0) + 1,
        r.batches.deep_view().len() == r.requests,
        forall|k: int|
            0 <= k < r.batches.deep_view().len() ==> #[trigger] r.batches.deep_view()[k]
                == pages.deep_view()[k].results.map_values(
                |rep: ReportModel| spec_source_of_report(rep, child_id, child_name@, center_map@),
            ),
{
    let ghost dv = pages.deep_view();
    let ghost n = spec_first_stop(dv, 0);
    let mut st = ReportFetchState::new(param);
    let mut batches: Vec<Vec<DownloadSource>> = Vec::new();
    let mut idx: usize = 0;
    proof {
        lemma_first_stop_bounds(dv, 0);
    }
    while !st.finished
        invariant
            dv == pages.deep_view(),
            n == spec_first_stop(dv, 0),
            n < dv.len(),
            n + 1 <= PAGE_LOOP_LIMIT,
            st.wf(),
            idx == st.pages_fetched,
            idx == batches@.len(),
            !st.finished ==> idx <= n && (forall|k: int|
                0 <= k < idx ==> !spec_page_stops(#[trigger] dv[k])),
            st.finished ==> idx == n + 1,
            forall|k: int|
                0 <= k < batches@.len() ==> #[trigger] batches.deep_view()[k]
                    == dv[k].results.map_values(
                    |rep: ReportModel| spec_source_of_report(
                        rep,
                        child_id,
                        child_name@,
                        center_map@,
                    ),
                ),
        decreases n + 1 - idx,
    {
        let page = &pages[idx];
        let results = clone_results(&page.results);
        let batch = map_page_to_sources(results, child_id, child_name, center_map);
        let ghost prev_batches = batches.deep_view();
        batches.push(batch);
        proof {
            assert(batches.deep_view() =~~= prev_batches.push(
                dv[idx as int].results.map_values(
                    |rep: ReportModel| spec_source_of_report(
                        rep,
                        child_id,
                        child_name@,
                        center_map@,
                    ),
                ),
            ));
        }
        let results_empty = page.results.len() == 0;
        st.on_page(clone_opt_string(&page.next), results_empty);
        proof {
            if spec_page_stops(dv[idx as int]) {
                lemma_first_stop_at(dv, 0, idx as int);
            } else {
                lemma_first_stop_ge(dv, 0, idx + 1);
            }
        }
        idx = idx + 1;
    }
    FetchRun { requests: idx, batches }
}

/// Clone a page's result list, preserving content.
fn clone_results(v: &Vec<ChildReportDataResponse>) -> (r: Vec<ChildReportDataResponse>)
    ensures
        r.deep_view() == v.deep_view(),
{
    let mut out: Vec<ChildReportDataResponse> = Vec::new();
    let mut i: usize = 0;
    while i < v.len()
        invariant
            i <= v@.len(),
            out.deep_view() =~= v.deep_view().take(i as int),
        decreases v@.len() - i,
    {
        let ghost prev = out.deep_view();
        out.push(v[i].clone());
        proof {
            assert(out.deep_view() =~~= prev.push(v@[i as int]@));
            assert(prev.push(v@[i as int]@) =~~= v.deep_view().take(i + 1));
        }
        i = i + 1;
    }
    proof {
        assert(v.deep_view().take(v@.len() as int) =~= v.deep_view());
    }
    out
}

proof fn lemma_first_stop_bounds(pages: Seq<PageModel>, from: int)
    requires
        0 <= from <= pages.len(),
    ensures
        from <= spec_first_stop(pages, from) <= pages.len(),
    decreases pages.len() - from,
{
    if from < pages.len() && !spec_page_stops(pages[from]) {
        lemma_first_stop_bounds(pages, from + 1);
    }
}

proof fn lemma_first_stop_ge(pages: Seq<PageModel>, from: int, m: int)
    requires
        0 <= from <= m <= pages.len(),
        forall|k: int| from <= k < m ==> !spec_page_stops(#[trigger] pages[k]),
    ensures
        spec_first_stop(pages, from) >= m,
    decreases m - from,
{
    if from < m {
        lemma_first_stop_ge(pages, from + 1, m);
    } else {
        lemma_first_stop_bounds(pages, from);
    }
}

proof fn lemma_first_stop_at(pages: Seq<PageModel>, from: int, n: int)
    requires
        0 <= from <= n < pages.len(),
        spec_page_stops(pages[n]),
        forall|k: int| from <= k < n ==> !spec_page_stops(#[trigger] pages[k]),
    ensures
        spec_first_stop(pages, from) == n,
    decreases n - from,
{
    if from < n {
        lemma_first_stop_at(pages, from + 1, n);
    }
}

} // verus!
