//! The asset downloader's decision logic: skip a download when the file on
//! disk already has the expected size, retry transient fetch failures up to
//! three times, and classify the terminal outcome.
//!
//! The filesystem probe, the HTTP fetch and the file write are performed by
//! the surrounding application; it reports what happened through
//! [`FileProbe`] and [`FetchAttempt`] values and obeys the returned
//! decisions, writing a file only when told to store.

use vstd::prelude::*;
use vstd::string::StringExecFns;

use crate::errors::AuthError;

verus! {

/// Number of fetch attempts allowed for one image.
pub const FETCH_ATTEMPT_LIMIT: usize = 3;

/// One attached image of a report.
#[derive(Debug)]
pub struct ResourceImageResponse {
    pub id: u64,
    pub access_key: String,
    pub original_file_name: String,
    pub file_size: i32,
    pub width: i32,
    pub height: i32,
    /// original image url
    pub original: String,
    /// large image url
    pub large: String,
    /// small image url
    pub small: String,
}

/// Mathematical value of an attached image record.
pub ghost struct ResourceImageModel {
    pub id: u64,
    pub access_key: Seq<char>,
    pub original_file_name: Seq<char>,
    pub file_size: int,
    pub width: int,
    pub height: int,
    pub original: Seq<char>,
    pub large: Seq<char>,
    pub small: Seq<char>,
}

impl View for ResourceImageResponse {
    type V = ResourceImageModel;

    open spec fn view(&self) -> ResourceImageModel {
        ResourceImageModel {
            id: self.id,
            access_key: self.access_key@,
            original_file_name: self.original_file_name@,
            file_size: self.file_size as int,
            width: self.width as int,
            height: self.height as int,
            original: self.original@,
            large: self.large@,
            small: self.small@,
        }
    }
}

impl DeepView for ResourceImageResponse {
    type V = ResourceImageModel;

    open spec fn deep_view(&self) -> ResourceImageModel {
        self@
    }
}

impl Clone for ResourceImageResponse {
    fn clone(&self) -> (r: Self)
        ensures
            r@ == self@,
    {
        ResourceImageResponse {
            id: self.id,
            access_key: self.access_key.clone(),
            original_file_name: self.original_file_name.clone(),
            file_size: self.file_size,
            width: self.width,
            height: self.height,
            original: self.original.clone(),
            large: self.large.clone(),
            small: self.small.clone(),
        }
    }
}

/// Clone of an optional image record, preserving content.
pub fn clone_opt_image(o: &Option<ResourceImageResponse>) -> (r: Option<ResourceImageResponse>)
    ensures
        r.deep_view() == o.deep_view(),
{
    match o {
        Some(img) => Some(img.clone()),
        None => None,
    }
}

/// Clone of an image list, preserving content.
pub fn clone_images(v: &Vec<ResourceImageResponse>) -> (r: Vec<ResourceImageResponse>)
    ensures
        r.deep_view() == v.deep_view(),
{
    let mut out: Vec<ResourceImageResponse> = Vec::new();
    let mut i: usize = 0;
    while i < v.len()
        invariant
            i <= v@.len(),
            out.deep_view() =~= v.deep_view().take(i as int),
        decreases v@.len() - i,
    {
        let ghost prev = out.deep_view();
        out.push(v[i].clone());
        proof {
            assert(out.deep_view() =~~= prev.push(v@[i as int]@));
            assert(prev.push(v@[i as int]@) =~~= v.deep_view().take(i + 1));
        }
        i = i + 1;
    }
    proof {
        assert(v.deep_view().take(v@.len() as int) =~= v.deep_view());
    }
    out
}

/// What the filesystem said about the destination path.
#[derive(Debug)]
pub enum FileProbe {
    /// No file at the path.
    Missing,
    /// A file exists with this byte length.
    Present(u64),
    /// The metadata call failed for another reason; the detail text.
    Unreadable(String),
}

/// Mathematical value of a probe.
pub ghost enum FileProbeModel {
    Missing,
    Present(nat),
    Unreadable(Seq<char>),
}

impl View for FileProbe {
    type V = FileProbeModel;

    open spec fn view(&self) -> FileProbeModel {
        match self {
            FileProbe::Missing => FileProbeModel::Missing,
            FileProbe::Present(len) => FileProbeModel::Present(*len as nat),
            FileProbe::Unreadable(d) => FileProbeModel::Unreadable(d@),
        }
    }
}

/// What one fetch attempt produced.
#[derive(Debug)]
pub enum FetchAttempt {
    /// The request succeeded with a successful status and a readable body.
    Success,
    /// The request itself failed (timeout, connection); retried.
    SendError(String),
    /// The request went out but the body could not be read; not retried.
    BodyError(String),
}

/// Mathematical value of a fetch attempt.
pub ghost enum FetchAttemptModel {
    Success,
    SendError(Seq<char>),
    BodyError(Seq<char>),
}

impl View for FetchAttempt {
    type V = FetchAttemptModel;

    open spec fn view(&self) -> FetchAttemptModel {
        match self {
            FetchAttempt::Success => FetchAttemptModel::Success,
            FetchAttempt::SendError(d) => FetchAttemptModel::SendError(d@),
            FetchAttempt::BodyError(d) => FetchAttemptModel::BodyError(d@),
        }
    }
}

impl DeepView for FetchAttempt {
    type V = FetchAttemptModel;

    open spec fn deep_view(&self) -> FetchAttemptModel {
        self@
    }
}

/// The failure detail an attempt carries (empty for a success).
pub open spec fn spec_attempt_detail(a: FetchAttemptModel) -> Seq<char> {
    match a {
        FetchAttemptModel::Success => Seq::empty(),
        FetchAttemptModel::SendError(d) => d,
        FetchAttemptModel::BodyError(d) => d,
    }
}

fn attempt_detail(a: &FetchAttempt) -> (r: &str)
    ensures
        r@ == spec_attempt_detail(a@),
{
    match a {
        FetchAttempt::Success => {
            proof {
                reveal_strlit("");
                assert(""@ =~= Seq::<char>::empty());
            }
            ""
        },
        FetchAttempt::SendError(d) => d.as_str(),
        FetchAttempt::BodyError(d) => d.as_str(),
    }
}

/// The expected size reported by the server, compared as the original
/// comparison does: the `i32` is cast to `u64` with two's-complement
/// wrapping before being held against the on-disk length.
pub open spec fn spec_size_matches(len: nat, expected: int) -> bool {
    if expected >= 0 {
        len == expected
    } else {
        len == expected + 0x1_0000_0000_0000_0000
    }
}

/// What to do before any network call.
#[derive(Debug)]
pub enum PreDownloadDecision {
    /// The file is already there with the expected size: no fetch.
    Skip,
    /// Fetch the image.
    Fetch,
    /// The probe failed; abort this download with the error.
    Fail(AuthError),
}

/// Decide between skipping, fetching and failing from the probe result.
pub fn predownload_decision(probe: &FileProbe, expected_size: i32) -> (d: PreDownloadDecision)
    ensures
        match probe@ {
            FileProbeModel::Present(len) => if spec_size_matches(len, expected_size as int) {
                d is Skip
            } else {
                d is Fetch
            },
            FileProbeModel::Missing => d is Fetch,
            FileProbeModel::Unreadable(detail) => d matches PreDownloadDecision::Fail(
                AuthError::GeneralErrorStr(m),
            ) && m@ == "file metadata error. "@ + detail,
        },
{
    match probe {
        FileProbe::Missing => PreDownloadDecision::Fetch,
        FileProbe::Present(len) => {
            let expected: u64 = if expected_size >= 0 {
                expected_size as u64
            } else {
                let pos: u64 = (-(expected_size as i64)) as u64;
                u64::MAX - pos + 1
            };
            if *len == expected {
                PreDownloadDecision::Skip
            } else {
                PreDownloadDecision::Fetch
            }
        },
        FileProbe::Unreadable(detail) => {
            let mut m = String::from_str("file metadata error. ");
            m.append(detail.as_str());
            PreDownloadDecision::Fail(AuthError::GeneralErrorStr(m))
        },
    }
}

/// Index of the first attempt among the first `FETCH_ATTEMPT_LIMIT` that is
/// not a send error, or `FETCH_ATTEMPT_LIMIT` when all of them are.
pub open spec fn spec_first_non_send(attempts: Seq<FetchAttemptModel>, k: int) -> int
    recommends
        0 <= k <= FETCH_ATTEMPT_LIMIT,
        attempts.len() >= FETCH_ATTEMPT_LIMIT,
    decreases FETCH_ATTEMPT_LIMIT as int - k,
{
    if k < 0 || k >= FETCH_ATTEMPT_LIMIT as int {
        FETCH_ATTEMPT_LIMIT as int
    } else if attempts[k] is SendError {
        spec_first_non_send(attempts, k + 1)
    } else {
        k
    }
}

/// Terminal state of one image download.
#[derive(Debug)]
pub enum DownloadResolution {
    /// The existing file already had the expected size; nothing was fetched
    /// and nothing was written.
    Skipped,
    /// A fetch succeeded; the body is to be written to the destination and
    /// the file times set to the report's creation time.
    Stored { attempts_used: usize },
    /// The download failed; nothing is to be written, so an existing file
    /// stays as it was.
    Failed { attempts_used: usize, error: AuthError },
}

/// Mathematical value of a resolution.
pub ghost enum ResolutionModel {
    Skipped,
    Stored { attempts_used: int },
    Failed { attempts_used: int, message: Seq<char> },
}

impl View for DownloadResolution {
    type V = ResolutionModel;

    open spec fn view(&self) -> ResolutionModel {
        match self {
            DownloadResolution::Skipped => ResolutionModel::Skipped,
            DownloadResolution::Stored { attempts_used } => ResolutionModel::Stored {
                attempts_used: *attempts_used as int,
            },
            DownloadResolution::Failed { attempts_used, error } => ResolutionModel::Failed {
                attempts_used: *attempts_used as int,
                message: error.spec_message(),
            },
        }
    }
}

/// The downloader's decision function in full: what one image download
/// resolves to, given the probe of the destination and the outcome each
/// fetch attempt would have.
pub open spec fn spec_resolve_download(
    probe: FileProbeModel,
    expected_size: int,
    attempts: Seq<FetchAttemptModel>,
) -> ResolutionModel
    recommends
        attempts.len() >= FETCH_ATTEMPT_LIMIT,
{
    match probe {
        FileProbeModel::Unreadable(detail) => ResolutionModel::Failed {
            attempts_used: 0,
            message: "Error: "@ + "file metadata error. "@ + detail,
        },
        FileProbeModel::Present(len) => if spec_size_matches(len, expected_size) {
            ResolutionModel::Skipped
        } else {
            spec_resolve_fetch(attempts)
        },
        FileProbeModel::Missing => spec_resolve_fetch(attempts),
    }
}

/// Resolution of the retry loop alone.
pub open spec fn spec_resolve_fetch(attempts: Seq<FetchAttemptModel>) -> ResolutionModel
    recommends
        attempts.len() >= FETCH_ATTEMPT_LIMIT,
{
    let n = spec_first_non_send(attempts, 0);
    if n >= FETCH_ATTEMPT_LIMIT as int {
        ResolutionModel::Failed {
            attempts_used: FETCH_ATTEMPT_LIMIT as int,
            message: "Error: "@ + "unknown error. "@ + spec_attempt_detail(
                attempts[FETCH_ATTEMPT_LIMIT - 1],
            ),
        }
    } else {
        match attempts[n] {
            FetchAttemptModel::Success => ResolutionModel::Stored { attempts_used: n + 1 },
            FetchAttemptModel::BodyError(detail) => ResolutionModel::Failed {
                attempts_used: n + 1,
                message: "Error: "@ + "unknown error. "@ + detail,
            },
            // not reached: n is the first attempt that is no send error
            FetchAttemptModel::SendError(_) => ResolutionModel::Skipped,
        }
    }
}

/// Run the download decision on given attempt outcomes. The application's
/// retry loop follows this function step by step with real probes and
/// fetches; here the whole decision is taken at once, so its contract can
/// say exactly which terminal state comes out.
pub fn resolve_download(
    probe: &FileProbe,
    expected_size: i32,
    attempts: &Vec<FetchAttempt>,
) -> (r: DownloadResolution)
    requires
        attempts@.len() >= FETCH_ATTEMPT_LIMIT,
    ensures
        r@ == spec_resolve_download(probe@, expected_size as int, attempts.deep_view()),
{
    let pre = predownload_decision(probe, expected_size);
    match pre {
        PreDownloadDecision::Skip => DownloadResolution::Skipped,
        PreDownloadDecision::Fail(error) => {
            proof {
                if let FileProbeModel::Unreadable(detail) = probe@ {
                    assert("Error: "@ + ("file metadata error. "@ + detail) =~= "Error: "@
                        + "file metadata error. "@ + detail);
                }
            }
            DownloadResolution::Failed { attempts_used: 0, error }
        },
        PreDownloadDecision::Fetch => {
            let mut k: usize = 0;
            while k < FETCH_ATTEMPT_LIMIT
                invariant
                    0 <= k <= FETCH_ATTEMPT_LIMIT,
                    attempts@.len() >= FETCH_ATTEMPT_LIMIT,
                    spec_resolve_download(probe@, expected_size as int, attempts.deep_view())
                        == spec_resolve_fetch(attempts.deep_view()),
                    forall|t: int| 0 <= t < k ==> attempts@[t]@ is SendError,
                    spec_first_non_send(attempts.deep_view(), 0) == spec_first_non_send(
                        attempts.deep_view(),
                        k as int,
                    ),
                decreases FETCH_ATTEMPT_LIMIT - k,
            {
                proof {
                    assert(attempts.deep_view()[k as int] == attempts@[k as int]@);
                }
                match &attempts[k] {
                    FetchAttempt::Success => {
                        proof {
                            assert(spec_first_non_send(attempts.deep_view(), k as int)
                                == k as int);
                        }
                        return DownloadResolution::Stored { attempts_used: k + 1 };
                    },
                    FetchAttempt::BodyError(detail) => {
                        let mut m = String::from_str("unknown error. ");
                        m.append(detail.as_str());
                        proof {
                            assert(spec_first_non_send(attempts.deep_view(), k as int)
                                == k as int);
                            assert("Error: "@ + ("unknown error. "@ + detail@) =~= "Error: "@
                                + "unknown error. "@ + detail@);
                        }
                        return DownloadResolution::Failed {
                            attempts_used: k + 1,
                            error: AuthError::GeneralErrorStr(m),
                        };
                    },
                    FetchAttempt::SendError(_) => {
                        proof {
                            assert(spec_first_non_send(attempts.deep_view(), k as int)
                                == spec_first_non_send(attempts.deep_view(), k + 1));
                        }
                    },
                }
                k = k + 1;
            }
            let mut m = String::from_str("unknown error. ");
            let last = attempt_detail(&attempts[FETCH_ATTEMPT_LIMIT - 1]);
            m.append(last);
            proof {
                assert("Error: "@ + ("unknown error. "@ + last@) =~= "Error: "@
                    + "unknown error. "@ + last@);
            }
            DownloadResolution::Failed {
                attempts_used: FETCH_ATTEMPT_LIMIT,
                error: AuthError::GeneralErrorStr(m),
            }
        },
    }
}

/// A file whose length equals the server-reported size is never fetched:
/// the resolution is `Skipped`, before any attempt is consumed.
pub proof fn lemma_size_match_skips(
    len: nat,
    expected_size: int,
    attempts: Seq<FetchAttemptModel>,
)
    requires
        spec_size_matches(len, expected_size),
    ensures
        spec_resolve_download(FileProbeModel::Present(len), expected_size, attempts)
            == ResolutionModel::Skipped,
{
}

/// When the file is missing or its length differs, the first attempt that
/// is not a send error — within the three allowed — decides: a success
/// stores the body after exactly that many attempts.
pub proof fn lemma_first_success_stores(
    probe: FileProbeModel,
    expected_size: int,
    attempts: Seq<FetchAttemptModel>,
    n: int,
)
    requires
        attempts.len() >= FETCH_ATTEMPT_LIMIT,
        probe is Missing || (probe matches FileProbeModel::Present(len) && !spec_size_matches(
            len,
            expected_size,
        )),
        0 <= n < FETCH_ATTEMPT_LIMIT as int,
        attempts[n] is Success,
        forall|k: int| 0 <= k < n ==> attempts[k] is SendError,
    ensures
        spec_resolve_download(probe, expected_size, attempts) == (ResolutionModel::Stored {
            attempts_used: n + 1,
        }),
{
    lemma_first_non_send_at(attempts, 0, n);
}

/// When every one of the three attempts fails to send, the download
/// resolves to `Failed` carrying the last failure's detail — never to
/// `Stored`, so no write is instructed and an existing file is untouched.
pub proof fn lemma_exhausted_retries_fail(
    probe: FileProbeModel,
    expected_size: int,
    attempts: Seq<FetchAttemptModel>,
)
    requires
        attempts.len() >= FETCH_ATTEMPT_LIMIT,
        probe is Missing || (probe matches FileProbeModel::Present(len) && !spec_size_matches(
            len,
            expected_size,
        )),
        forall|k: int| 0 <= k < FETCH_ATTEMPT_LIMIT as int ==> attempts[k] is SendError,
    ensures
        spec_resolve_download(probe, expected_size, attempts) == (ResolutionModel::Failed {
            attempts_used: FETCH_ATTEMPT_LIMIT as int,
            message: "Error: "@ + "unknown error. "@ + spec_attempt_detail(
                attempts[FETCH_ATTEMPT_LIMIT - 1],
            ),
        }),
{
    lemma_first_non_send_at(attempts, 0, FETCH_ATTEMPT_LIMIT as int);
}

proof fn lemma_first_non_send_at(attempts: Seq<FetchAttemptModel>, from: int, n: int)
    requires
        0 <= from <= n <= FETCH_ATTEMPT_LIMIT,
        attempts.len() >= FETCH_ATTEMPT_LIMIT,
        forall|k: int| from <= k < n ==> attempts[k] is SendError,
        n < FETCH_ATTEMPT_LIMIT as int ==> !(attempts[n] is SendError),
    ensures
        spec_first_non_send(attempts, from) == n,
    decreases n - from,
{
    if from < n {
        lemma_first_non_send_at(attempts, from + 1, n);
    }
}

/// Client for image resources.
pub struct KidsnoteResourceSdk {}

impl KidsnoteResourceSdk {
    pub fn new() -> (r: KidsnoteResourceSdk) {
        KidsnoteResourceSdk {  }
    }
}

/// State of the bounded retry loop the application drives for one image.
pub struct RetryState {
    pub attempts_made: usize,
}

impl RetryState {
    /// Fresh loop: no attempt made yet.
    pub fn new() -> (r: RetryState)
        ensures
            r.attempts_made == 0,
    {
        RetryState { attempts_made: 0 }
    }

    /// Whether another fetch may be attempted.
    pub fn can_attempt(&self) -> (r: bool)
        ensures
            r == (self.attempts_made < FETCH_ATTEMPT_LIMIT),
    {
        self.attempts_made < FETCH_ATTEMPT_LIMIT
    }

    /// Record one attempt.
    pub fn record_attempt(&mut self)
        requires
            old(self).attempts_made < FETCH_ATTEMPT_LIMIT,
        ensures
            final(self).attempts_made == old(self).attempts_made + 1,
    {
        self.attempts_made = self.attempts_made + 1;
    }

    /// The error returned when every attempt failed to send, carrying the
    /// last failure's detail.
    pub fn exhausted_error(&self, last_detail: &str) -> (r: AuthError)
        ensures
            r matches AuthError::GeneralErrorStr(m) && m@ == "unknown error. "@ + last_detail@,
    {
        let mut m = String::from_str("unknown error. ");
        m.append(last_detail);
        AuthError::GeneralErrorStr(m)
    }
}

/// The error carried when a response body could not be read.
pub fn body_read_error(detail: &str) -> (r: AuthError)
    ensures
        r matches AuthError::GeneralErrorStr(m) && m@ == "unknown error. "@ + detail@,
{
    let mut m = String::from_str("unknown error. ");
    m.append(detail);
    AuthError::GeneralErrorStr(m)
}

} // verus!
