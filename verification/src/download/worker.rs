//! Worker records and the names a transfer derives from its URL.

use vstd::prelude::*;
use vstd::string::*;

verus! {

/// The denominator of the fixed-point progress ratio: a ratio of
/// `RATIO_SCALE` means the download is complete.
pub const RATIO_SCALE: u64 = 1000;

/// A syntactically valid download URL, reduced to what the core reads of it:
/// its full text and its path segments.  The caller validates the URL and
/// splits the path before handing it in; the core never parses URLs itself.
#[derive(Debug)]
pub struct RequestUrl {
    /// The serialized URL.
    pub text: String,
    /// The `/`-separated segments of the URL's path, in order.
    pub segments: Vec<String>,
}

impl RequestUrl {
    /// The path segments as sequences of characters.
    pub open spec fn spec_segments(self) -> Seq<Seq<char>> {
        self.segments@.map_values(|s: String| s@)
    }
}

/// The file name a download takes: the last path segment of its URL, present
/// exactly when the URL has one and it is not empty.
pub open spec fn spec_file_name(segments: Seq<Seq<char>>) -> Option<Seq<char>> {
    if segments.len() > 0 && segments.last().len() > 0 {
        Some(segments.last())
    } else {
        None
    }
}

/// Derive the destination file name from a URL: its last path segment.
/// A URL with no path segments, or with an empty final segment, names no
/// file, and the request must be rejected before any worker exists.
pub fn file_name_of(url: &RequestUrl) -> (r: Option<String>)
    ensures
        (match r {
            Some(name) => spec_file_name(url.spec_segments()) == Some(name@),
            None => spec_file_name(url.spec_segments()) is None,
        }),
{
    let n = url.segments.len();
    if n == 0 {
        return None;
    }
    let last = &url.segments[n - 1];
    if last.as_str().is_empty() {
        None
    } else {
        Some(last.clone())
    }
}

/// The index of the last `.` in `s`, or -1 when `s` has none.
pub open spec fn last_dot(s: Seq<char>) -> int
    decreases s.len(),
{
    if s.len() == 0 {
        -1
    } else if s[s.len() - 1] == '.' {
        s.len() - 1
    } else {
        last_dot(s.drop_last())
    }
}

/// The temporary sibling a transfer streams into before the atomic rename:
/// `.tmp` is spliced in front of the extension, so a name with an extension
/// becomes `<stem>.tmp.<extension>`, and one without (no dot, or only a
/// leading dot) is suffixed with `.tmp` whole.
pub open spec fn spec_tmp_name(s: Seq<char>) -> Seq<char> {
    if last_dot(s) >= 1 {
        s.subrange(0, last_dot(s)) + ".tmp"@ + s.subrange(last_dot(s), s.len() as int)
    } else {
        s + ".tmp"@
    }
}

proof fn lemma_last_dot_at(s: Seq<char>, k: int)
    requires
        0 <= k < s.len(),
        s[k] == '.',
        forall|j: int| k < j < s.len() ==> s[j] != '.',
    ensures
        last_dot(s) == k,
    decreases s.len(),
{
    if k == s.len() - 1 {
    } else {
        lemma_last_dot_at(s.drop_last(), k);
    }
}

proof fn lemma_last_dot_none(s: Seq<char>)
    requires
        forall|j: int| 0 <= j < s.len() ==> s[j] != '.',
    ensures
        last_dot(s) == -1,
    decreases s.len(),
{
    if s.len() > 0 {
        lemma_last_dot_none(s.drop_last());
    }
}

/// Build the temporary file name for a destination file name.
pub fn tmp_file_name(name: &str) -> (r: String)
    ensures
        r@ == spec_tmp_name(name@),
{
    let n = name.unicode_len();
    let mut i: usize = n;
    let mut dot: Option<usize> = None;
    while i > 0 && dot.is_none()
        invariant
            i <= n,
            n == name@.len(),
            (match dot {
                Some(k) => 0 <= k < n && name@[k as int] == '.' && (forall|j: int|
                    k < j < n ==> name@[j] != '.'),
                None => forall|j: int| i <= j < n ==> name@[j] != '.',
            }),
        decreases (match dot {
            Some(_) => 0int,
            None => i + 1,
        }),
    {
        let c = name.get_char(i - 1);
        if c == '.' {
            dot = Some(i - 1);
        } else {
            i = i - 1;
        }
    }
    match dot {
        Some(k) if k >= 1 => {
            proof {
                lemma_last_dot_at(name@, k as int);
            }
            let stem = name.substring_char(0, k);
            let rest = name.substring_char(k, n);
            let r = stem.to_owned().concat(".tmp").concat(rest);
            proof {
                assert(r@ =~= spec_tmp_name(name@));
            }
            r
        },
        Some(_) => {
            // the only dot leads the name, as in a dotfile: no extension
            proof {
                lemma_last_dot_at(name@, 0);
            }
            let r = name.to_owned().concat(".tmp");
            r
        },
        None => {
            proof {
                lemma_last_dot_none(name@);
            }
            let r = name.to_owned().concat(".tmp");
            r
        },
    }
}

/// One download's record as the controller sees it: identity and names fixed
/// at creation, live fields mirrored from the worker's status events, and the
/// handle that feeds that worker's control channel.
#[derive(Debug)]
pub struct Worker {
    /// The declared content length; 0 until (and unless) the server sends one.
    pub total_size: u64,
    /// Bytes reported downloaded so far.
    pub downloaded: u64,
    /// The source URL, serialized.
    pub url: String,
    /// The destination file name, derived once from the URL.
    pub file_name: String,
    /// The identity the controller allocated for this download.
    pub id: u64,
    /// Sends pause/resume toggle signals into this worker's control channel.
    pub pause_tx: tokio::sync::mpsc::UnboundedSender<()>,
    /// The mirrored pause state, updated only through Paused events.
    pub paused: bool,
    /// Whether the transfer completed and the file was renamed.
    pub done: bool,
    /// Whether the transfer ended in an error instead.
    pub failed: bool,
    /// The smoothed throughput last reported, in bytes per second.
    pub speed: u64,
}

impl Worker {
    /// A fresh record: nothing downloaded, total unknown, active, neither
    /// done nor failed, no throughput yet.
    pub fn new(
        id: u64,
        url: String,
        file_name: String,
        pause_tx: tokio::sync::mpsc::UnboundedSender<()>,
    ) -> (w: Worker)
        ensures
            w.id == id,
            w.url == url,
            w.file_name == file_name,
            w.pause_tx == pause_tx,
            w.total_size == 0,
            w.downloaded == 0,
            w.speed == 0,
            !w.paused,
            !w.done,
            !w.failed,
    {
        Worker {
            total_size: 0,
            downloaded: 0,
            url,
            file_name,
            id,
            pause_tx,
            paused: false,
            done: false,
            failed: false,
            speed: 0,
        }
    }

    /// The progress ratio in thousandths, clamped to `[0, RATIO_SCALE]`:
    /// exactly `RATIO_SCALE` once every declared byte (or more) is here, 0
    /// while the total is unknown, and the truncated proportion in between.
    pub fn ratio(&self) -> (r: u64)
        ensures
            self.total_size == 0 ==> r == 0,
            self.total_size > 0 && self.downloaded >= self.total_size ==> r == RATIO_SCALE,
            self.total_size > 0 && self.downloaded < self.total_size ==> r == (self.downloaded
                * RATIO_SCALE) / (self.total_size as int),
            r <= RATIO_SCALE,
    {
        if self.total_size == 0 {
            0
        } else if self.downloaded >= self.total_size {
            RATIO_SCALE
        } else {
            proof {
                let d = self.downloaded as int;
                let t = self.total_size as int;
                assert((d * 1000) / t < 1000) by (nonlinear_arith)
                    requires
                        0 <= d < t,
                ;
            }
            let num: u128 = (self.downloaded as u128) * (RATIO_SCALE as u128);
            (num / (self.total_size as u128)) as u64
        }
    }
}

} // verus!
