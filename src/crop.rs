//! Crop detection: reading `crop=W:H:X:Y` tokens out of the detection filter's
//! diagnostic text, and reducing the candidates of all windows to the tightest one.
//!
//! The offset comparison is non-strict: a candidate with the same offsets and a
//! smaller or equal size still counts as tighter.
use vstd::prelude::*;
use vstd::string::StringSliceAdditionalSpecFns;

verus! {

/// A crop rectangle; the all-zero value means that no crop was detected.
#[derive(Debug, Clone, Copy, PartialEq, Eq, Structural)]
pub struct VideoCrop {
    pub w: u64,
    pub h: u64,
    pub x: u64,
    pub y: u64,
}

/// A time range, in whole seconds, that one detection pass examines.
#[derive(Debug, Clone, Copy, PartialEq, Eq, Structural)]
pub struct CropWindow {
    pub start: u64,
    pub length: u64,
}

/// Seconds at the start of a video that detection skips.
pub const WARM_UP_SECS: u64 = 60;

/// Number of windows the remaining duration is divided into.
pub const WINDOW_COUNT: u64 = 10;

pub open spec fn is_digit(b: u8) -> bool {
    48 <= b <= 57
}

/// First index at or after `i`, and before `end`, that holds no decimal digit (or `end`).
pub open spec fn run_end(s: Seq<u8>, i: int, end: int) -> int
    decreases end - i,
{
    if 0 <= i < end && i < s.len() && is_digit(s[i]) {
        run_end(s, i + 1, end)
    } else {
        i
    }
}

/// Value of the decimal digits `s[i..j]`.
pub open spec fn digits_value(s: Seq<u8>, i: int, j: int) -> nat
    decreases j - i,
{
    if j <= i {
        0
    } else {
        digits_value(s, i, j - 1) * 10 + (s[j - 1] - 48) as nat
    }
}

/// Where the digits of a number at `i` start: after one optional `+`.
pub open spec fn digits_start(s: Seq<u8>, i: int, end: int) -> int {
    if 0 <= i < end && i < s.len() && s[i] == 43u8 {
        i + 1
    } else {
        i
    }
}

/// An optional `+` and a non-empty run of digits starting at `i` (bounded by `end`) whose
/// value fits in a `u64`, with the index just past it.
pub open spec fn number_at(s: Seq<u8>, i: int, end: int) -> Option<(u64, int)> {
    let j = digits_start(s, i, end);
    let e = run_end(s, j, end);
    if e > j && digits_value(s, j, e) <= u64::MAX {
        Some((digits_value(s, j, e) as u64, e))
    } else {
        None
    }
}

/// A number at `i` followed by `:`; gives the number and the index after the colon.
pub open spec fn field_at(s: Seq<u8>, i: int, end: int) -> Option<(u64, int)> {
    match number_at(s, i, end) {
        Some((v, e)) => if e < end && s[e] == 58u8 {
            Some((v, e + 1))
        } else {
            None
        },
        None => None,
    }
}

/// Four numbers separated by `:` in `s[i..end]`. The fourth ends the text or is followed by `:`
/// (anything after that colon is ignored).
pub open spec fn crop_between(s: Seq<u8>, i: int, end: int) -> Option<VideoCrop> {
    match field_at(s, i, end) {
        Some((w, i1)) => match field_at(s, i1, end) {
            Some((h, i2)) => match field_at(s, i2, end) {
                Some((x, i3)) => match number_at(s, i3, end) {
                    Some((y, e)) => if e == end || s[e] == 58u8 {
                        Some(VideoCrop { w, h, x, y })
                    } else {
                        None
                    },
                    None => None,
                },
                None => None,
            },
            None => None,
        },
        None => None,
    }
}

/// First index at or after `i` that holds a line feed, or `s.len()`.
pub open spec fn line_end(s: Seq<u8>, i: int) -> int
    decreases s.len() - i,
{
    if 0 <= i < s.len() && s[i] != 10u8 {
        line_end(s, i + 1)
    } else {
        i
    }
}

/// End of the text of the line that starts at `i`: its line feed, less a carriage return
/// just before it.
pub open spec fn text_end(s: Seq<u8>, i: int) -> int {
    let e = line_end(s, i);
    if e > i && s[e - 1] == 13u8 {
        e - 1
    } else {
        e
    }
}

/// `s` holds the marker `crop=` at `p`.
pub open spec fn marker_at(s: Seq<u8>, p: int) -> bool {
    0 <= p && p + 5 <= s.len() && s[p] == 99u8 && s[p + 1] == 114u8 && s[p + 2] == 111u8 && s[p
        + 3] == 112u8 && s[p + 4] == 61u8
}

/// The crop that a marker at `p` announces, read up to the end of its line.
pub open spec fn token_at(s: Seq<u8>, p: int) -> Option<VideoCrop> {
    if marker_at(s, p) {
        crop_between(s, p + 5, text_end(s, p + 5))
    } else {
        None
    }
}

/// The last well-formed token among the markers that start before `k`.
pub open spec fn last_token(s: Seq<u8>, k: int) -> Option<VideoCrop>
    decreases k,
{
    if k <= 0 {
        None
    } else {
        match token_at(s, k - 1) {
            Some(c) => Some(c),
            None => last_token(s, k - 1),
        }
    }
}

pub open spec fn clean() -> VideoCrop {
    VideoCrop { w: 0, h: 0, x: 0, y: 0 }
}

/// `a` is no larger than `b` and no more permissive in offset.
pub open spec fn tighter_eq(a: VideoCrop, b: VideoCrop) -> bool {
    a.w <= b.w && a.h <= b.h && a.x >= b.x && a.y >= b.y
}

/// The candidate `c` takes the place of the current best `b`.
pub open spec fn replaces(b: VideoCrop, c: VideoCrop) -> bool {
    c != clean() && (b == clean() || (tighter_eq(c, b) && c != b))
}

/// Reduction of the window candidates, in order, under the tightening rule.
pub open spec fn tightest(s: Seq<VideoCrop>) -> VideoCrop
    decreases s.len(),
{
    if s.len() == 0 {
        clean()
    } else {
        let b = tightest(s.drop_last());
        if replaces(b, s.last()) {
            s.last()
        } else {
            b
        }
    }
}

/// The detected crops of a window list are pairwise comparable under `tighter_eq`.
pub open spec fn comparable(s: Seq<VideoCrop>) -> bool {
    forall|i: int, j: int|
        0 <= i < s.len() && 0 <= j < s.len() && s[i] != clean() && s[j] != clean() ==> tighter_eq(
            #[trigger] s[i],
            #[trigger] s[j],
        ) || tighter_eq(s[j], s[i])
}

pub open spec fn windows_for(duration: nat) -> Seq<CropWindow> {
    let rest: nat = if duration >= WARM_UP_SECS { (duration - WARM_UP_SECS) as nat } else { 0 };
    let seg: nat = rest / (WINDOW_COUNT as nat);
    Seq::new(
        WINDOW_COUNT as nat,
        |k: int| CropWindow { start: (WARM_UP_SECS + seg * k) as u64, length: seg as u64 },
    )
}

pub open spec fn with_index(o: Option<(u64, int)>) -> Option<(u64, usize)> {
    match o {
        Some((v, e)) => Some((v, e as usize)),
        None => None,
    }
}

proof fn lemma_run_end(s: Seq<u8>, i: int, end: int)
    requires
        0 <= i <= end <= s.len(),
    ensures
        i <= run_end(s, i, end) <= end,
        forall|j: int| i <= j < run_end(s, i, end) ==> is_digit(s[j]),
        run_end(s, i, end) < end ==> !is_digit(s[run_end(s, i, end)]),
    decreases end - i,
{
    if i < end && is_digit(s[i]) {
        lemma_run_end(s, i + 1, end);
    }
}

proof fn lemma_digits_grow(s: Seq<u8>, i: int, j: int, k: int)
    requires
        i <= j <= k,
        forall|m: int| i <= m < k ==> is_digit(s[m]),
    ensures
        digits_value(s, i, j) <= digits_value(s, i, k),
    decreases k - j,
{
    if j < k {
        lemma_digits_grow(s, i, j, k - 1);
    }
}

/// Reads a run of digits at `i`, bounded by `end`.
fn read_number(s: &[u8], i: usize, end: usize) -> (r: Option<(u64, usize)>)
    requires
        i <= end <= s@.len(),
    ensures
        r == with_index(number_at(s@, i as int, end as int)),
        number_at(s@, i as int, end as int) matches Some(p) ==> i < p.1 <= end,
{
    proof {
        lemma_run_end(s@, digits_start(s@, i as int, end as int), end as int);
    }
    let j: usize = if i < end && s[i] == 43u8 {
        i + 1
    } else {
        i
    };
    let mut k: usize = j;
    let mut v: u64 = 0;
    let mut over = false;
    while k < end && 48 <= s[k] && s[k] <= 57
        invariant
            i <= j <= k <= end <= s@.len(),
            j == digits_start(s@, i as int, end as int),
            run_end(s@, j as int, end as int) == run_end(s@, k as int, end as int),
            forall|m: int| j <= m < k ==> is_digit(s@[m]),
            !over ==> v == digits_value(s@, j as int, k as int),
            over ==> digits_value(s@, j as int, k as int) > u64::MAX,
        decreases end - k,
    {
        let d = (s[k] - 48) as u64;
        if !over {
            if v <= (u64::MAX - d) / 10 {
                v = v * 10 + d;
            } else {
                over = true;
            }
        } else {
            proof {
                lemma_digits_grow(s@, j as int, k as int, k as int + 1);
            }
        }
        k = k + 1;
    }
    proof {
        lemma_run_end(s@, k as int, end as int);
    }
    if k > j && !over {
        Some((v, k))
    } else {
        None
    }
}

/// Reads `number:` at `i`; gives the number and the index after the colon.
fn read_field(s: &[u8], i: usize, end: usize) -> (r: Option<(u64, usize)>)
    requires
        i <= end <= s@.len(),
    ensures
        r == with_index(field_at(s@, i as int, end as int)),
        field_at(s@, i as int, end as int) matches Some(p) ==> i < p.1 <= end,
{
    match read_number(s, i, end) {
        Some((v, e)) => if e < end && s[e] == 58u8 {
            Some((v, e + 1))
        } else {
            None
        },
        None => None,
    }
}

fn crop_in(s: &[u8], i: usize, end: usize) -> (r: Option<VideoCrop>)
    requires
        i <= end <= s@.len(),
    ensures
        r == crop_between(s@, i as int, end as int),
{
    let (w, i1) = match read_field(s, i, end) {
        Some(p) => p,
        None => return None,
    };
    let (h, i2) = match read_field(s, i1, end) {
        Some(p) => p,
        None => return None,
    };
    let (x, i3) = match read_field(s, i2, end) {
        Some(p) => p,
        None => return None,
    };
    match read_number(s, i3, end) {
        Some((y, e)) => if e == end || s[e] == 58u8 {
            Some(VideoCrop { w, h, x, y })
        } else {
            None
        },
        None => None,
    }
}

impl VideoCrop {
    /// Parses `W:H:X:Y`: four decimal numbers, each with an optional leading `+`,
    /// separated by colons; text after a further colon is ignored.
    pub fn new(crop: &str) -> (r: Option<Self>)
        ensures
            r == crop_between(crop.spec_bytes(), 0, crop.spec_bytes().len() as int),
    {
        let b = crop.as_bytes();
        crop_in(b, 0, b.len())
    }

    /// The all-zero crop, which stands for "no crop detected".
    pub fn new_clean() -> (r: Self)
        ensures
            r == clean(),
    {
        VideoCrop { w: 0, h: 0, x: 0, y: 0 }
    }

    /// Whether `crop` takes the place of `self` as the best candidate so far: it is a
    /// detected crop, and `self` is none or `crop` is strictly tighter.
    pub fn is_smaller_than(&self, crop: &VideoCrop) -> (r: bool)
        ensures
            r == replaces(*self, *crop),
    {
        let c_clean = crop.w == 0 && crop.h == 0 && crop.x == 0 && crop.y == 0;
        let s_clean = self.w == 0 && self.h == 0 && self.x == 0 && self.y == 0;
        let tighter = crop.w <= self.w && crop.h <= self.h && crop.x >= self.x && crop.y >= self.y;
        let same = crop.w == self.w && crop.h == self.h && crop.x == self.x && crop.y == self.y;
        !c_clean && (s_clean || (tighter && !same))
    }

    /// Whether this is a detected crop rather than the all-zero value.
    pub fn is_detected(&self) -> (r: bool)
        ensures
            r == (*self != clean()),
    {
        !(self.w == 0 && self.h == 0 && self.x == 0 && self.y == 0)
    }
}

/// Whole seconds of a duration such as `5400.120000`: the digits before the first `.`
/// (or of the whole text), which must fit in a `u64`.
pub open spec fn seconds_of(s: Seq<u8>) -> Option<u64> {
    match number_at(s, 0, s.len() as int) {
        Some((v, e)) => if e == s.len() || s[e] == 46u8 {
            Some(v)
        } else {
            None
        },
        None => None,
    }
}

/// Reads the whole seconds of a duration text.
pub fn parse_seconds(duration: &str) -> (r: Option<u64>)
    ensures
        r == seconds_of(duration.spec_bytes()),
{
    let b = duration.as_bytes();
    match read_number(b, 0, b.len()) {
        Some((v, e)) => if e == b.len() || b[e] == 46u8 {
            Some(v)
        } else {
            None
        },
        None => None,
    }
}

fn line_end_from(s: &[u8], i: usize) -> (r: usize)
    requires
        i <= s@.len(),
    ensures
        r == line_end(s@, i as int),
        i <= r <= s@.len(),
{
    let mut k = i;
    while k < s.len() && s[k] != 10u8
        invariant
            i <= k <= s@.len(),
            line_end(s@, i as int) == line_end(s@, k as int),
        decreases s@.len() - k,
    {
        k = k + 1;
    }
    k
}

/// The crop of one detection window: the last well-formed `crop=W:H:X:Y` token in the
/// filter's diagnostic text (each token read to the end of its line, a `\r\n` line end
/// included), or the all-zero
/// crop when there is none.
pub fn read_crop(stderr: &[u8]) -> (r: VideoCrop)
    ensures
        r == (match last_token(stderr@, stderr@.len() as int) {
            Some(c) => c,
            None => clean(),
        }),
{
    let n = stderr.len();
    let mut best: Option<VideoCrop> = None;
    let mut k: usize = 0;
    while k < n
        invariant
            n == stderr@.len(),
            k <= n,
            best == last_token(stderr@, k as int),
        decreases n - k,
    {
        let s = stderr;
        if n >= 5 && k <= n - 5 && s[k] == 99u8 && s[k + 1] == 114u8 && s[k + 2] == 111u8 && s[k + 3]
            == 112u8 && s[k + 4] == 61u8 {
            let le = line_end_from(s, k + 5);
            let e = if le > k + 5 && s[le - 1] == 13u8 {
                le - 1
            } else {
                le
            };
            if let Some(c) = crop_in(s, k + 5, e) {
                best = Some(c);
            }
        }
        k = k + 1;
    }
    match best {
        Some(c) => c,
        None => VideoCrop::new_clean(),
    }
}

/// Reduces the window candidates, in order, to the tightest crop: a candidate takes the
/// place of the best so far only where `is_smaller_than` says so, so ties keep the first.
/// All-zero candidates (windows that found nothing) are passed over.
pub fn aggregate_crops(windows: &Vec<VideoCrop>) -> (r: VideoCrop)
    ensures
        r == tightest(windows@),
        r == clean() <==> (forall|i: int| 0 <= i < windows@.len() ==> windows@[i] == clean()),
        r != clean() ==> exists|i: int| 0 <= i < windows@.len() && windows@[i] == r,
        forall|i: int|
            0 <= i < windows@.len() && windows@[i] != clean() && tighter_eq(
                #[trigger] windows@[i],
                r,
            ) ==> windows@[i] == r,
{
    let mut best = VideoCrop::new_clean();
    let mut k: usize = 0;
    while k < windows.len()
        invariant
            k <= windows@.len(),
            best == tightest(windows@.subrange(0, k as int)),
        decreases windows@.len() - k,
    {
        let c = windows[k];
        proof {
            assert(windows@.subrange(0, k as int + 1).drop_last() =~= windows@.subrange(
                0,
                k as int,
            ));
        }
        if best.is_smaller_than(&c) {
            best = c;
        }
        k = k + 1;
    }
    proof {
        assert(windows@.subrange(0, windows@.len() as int) =~= windows@);
        lemma_tightest_facts(windows@);
    }
    best
}

/// Facts of the reduction: it is all-zero exactly when every window is, otherwise it is
/// one of the candidates, and no detected candidate is strictly tighter than it.
pub proof fn lemma_tightest_facts(s: Seq<VideoCrop>)
    ensures
        tightest(s) == clean() <==> (forall|i: int| 0 <= i < s.len() ==> s[i] == clean()),
        tightest(s) != clean() ==> exists|i: int| 0 <= i < s.len() && s[i] == tightest(s),
        forall|i: int|
            0 <= i < s.len() && s[i] != clean() && tighter_eq(#[trigger] s[i], tightest(s))
                ==> s[i] == tightest(s),
    decreases s.len(),
{
    if s.len() > 0 {
        let p = s.drop_last();
        lemma_tightest_facts(p);
        let b = tightest(p);
        let r = tightest(s);
        assert forall|i: int| 0 <= i < s.len() - 1 implies s[i] == p[i] by {}
        if r != clean() && !replaces(b, s.last()) {
            let i = choose|i: int| 0 <= i < p.len() && p[i] == b;
            assert(s[i] == r);
        }
        if r == clean() {
            assert(!replaces(b, s.last()));
            assert(b == clean());
            assert(s.last() == clean());
            assert forall|i: int| 0 <= i < s.len() implies s[i] == clean() by {
                if i < s.len() - 1 {
                    assert(p[i] == clean());
                }
            }
        }
        assert forall|i: int|
            0 <= i < s.len() && s[i] != clean() && tighter_eq(#[trigger] s[i], r) implies s[i]
            == r by {
            if i < s.len() - 1 {
                assert(p[i] == s[i]);
                if replaces(b, s.last()) {
                    assert(b != clean() ==> tighter_eq(r, b));
                    if b == clean() {
                        assert(p[i] == clean());
                    }
                }
            }
        }
    }
}

/// Tightest-bound law: where the detected window crops are pairwise comparable, the
/// reduced crop is no larger in width or height, and no more permissive in offset, than
/// any of them.
pub proof fn lemma_tightest_bound(s: Seq<VideoCrop>)
    requires
        comparable(s),
    ensures
        forall|i: int|
            0 <= i < s.len() && s[i] != clean() ==> tighter_eq(tightest(s), #[trigger] s[i]),
{
    lemma_tightest_facts(s);
    let r = tightest(s);
    assert forall|i: int| 0 <= i < s.len() && s[i] != clean() implies tighter_eq(
        r,
        #[trigger] s[i],
    ) by {
        let j = choose|j: int| 0 <= j < s.len() && s[j] == r;
        assert(tighter_eq(s[i], s[j]) || tighter_eq(s[j], s[i]));
    }
}

/// Divides the duration after the warm-up into ten equal consecutive windows.
pub fn crop_windows(duration_secs: u64) -> (r: Vec<CropWindow>)
    ensures
        r@ == windows_for(duration_secs as nat),
{
    let rest = if duration_secs >= WARM_UP_SECS {
        duration_secs - WARM_UP_SECS
    } else {
        0
    };
    let seg = rest / WINDOW_COUNT;
    let mut r: Vec<CropWindow> = Vec::new();
    let mut k: u64 = 0;
    while k < WINDOW_COUNT
        invariant
            k <= WINDOW_COUNT,
            seg == (if duration_secs >= WARM_UP_SECS { duration_secs - WARM_UP_SECS } else { 0 })
                / 10,
            r@.len() == k,
            forall|j: int| 0 <= j < k ==> r@[j] == windows_for(duration_secs as nat)[j],
        decreases WINDOW_COUNT - k,
    {
        assert(seg * k <= seg * 10) by (nonlinear_arith)
            requires
                k < 10,
        ;
        r.push(CropWindow { start: WARM_UP_SECS + seg * k, length: seg });
        k = k + 1;
    }
    assert(r@ =~= windows_for(duration_secs as nat));
    r
}

} // verus!
