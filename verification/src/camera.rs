//! Camera selection: reading the device list that `ffmpeg -list_devices`
//! prints for AVFoundation, the fallback device, choosing a device, and the
//! order in which capture settings are tried.

use vstd::prelude::*;
use crate::text::{chars_of, parse_usize, parse_usize_spec, trim_chars, trimmed};

verus! {

/// First index at or after `i` where `c` occurs, or the length if none.
pub open spec fn index_from(s: Seq<char>, c: char, i: int) -> int
    decreases s.len() - i,
{
    if i >= s.len() {
        s.len() as int
    } else if s[i] == c {
        i
    } else {
        index_from(s, c, i + 1)
    }
}

/// `index_from` finds the first occurrence at or after the start.
pub proof fn lemma_index_from_bounds(s: Seq<char>, c: char, i: int)
    requires
        0 <= i,
    ensures
        i <= index_from(s, c, i) || i > s.len(),
        index_from(s, c, i) <= s.len() || i > s.len(),
        forall|k: int| i <= k < index_from(s, c, i) ==> #[trigger] s[k] != c,
        index_from(s, c, i) < s.len() ==> s[index_from(s, c, i)] == c,
    decreases s.len() - i,
{
    if i < s.len() && s[i] != c {
        lemma_index_from_bounds(s, c, i + 1);
    }
}

/// Last index before `end` where `c` occurs, or -1 if none.
pub open spec fn last_index_before(s: Seq<char>, c: char, end: int) -> int
    decreases end,
{
    if end <= 0 {
        -1
    } else if s[end - 1] == c {
        end - 1
    } else {
        last_index_before(s, c, end - 1)
    }
}

/// A line without the carriage return that ends it.
pub open spec fn strip_cr(l: Seq<char>) -> Seq<char> {
    if l.len() > 0 && l.last() == '\r' { l.drop_last() } else { l }
}

/// The lines from position `i` on, as `str::lines` yields them: split at
/// `\n`, a `\r` before the `\n` dropped, no empty line after a final `\n`.
pub open spec fn lines_from(s: Seq<char>, i: int) -> Seq<Seq<char>>
    decreases s.len() - i,
{
    if i >= s.len() || i < 0 {
        Seq::empty()
    } else {
        let k = index_from(s, '\n', i);
        proof {
            lemma_index_from_bounds(s, '\n', i);
        }
        if k >= s.len() {
            seq![s.subrange(i, s.len() as int)]
        } else {
            seq![strip_cr(s.subrange(i, k))].add(lines_from(s, k + 1))
        }
    }
}

/// Whether `pat` occurs in `s`.
pub open spec fn seq_contains(s: Seq<char>, pat: Seq<char>) -> bool {
    exists|i: int| 0 <= i <= s.len() - pat.len() && #[trigger] s.subrange(i, i + pat.len()) == pat
}

/// The device on a listing line `[...] [index] name`: the index in the last
/// brackets and the name after them, both trimmed; none when the index does
/// not parse, the name is empty, or it mentions audio.
pub open spec fn device_of_line(l: Seq<char>) -> Option<(usize, Seq<char>)> {
    let p = last_index_before(l, '[', l.len() as int);
    let q = index_from(l, ']', p);
    if p < 0 || q >= l.len() {
        None
    } else {
        match parse_usize_spec(trimmed(l.subrange(p + 1, q))) {
            None => None,
            Some(idx) => if q + 1 < l.len() {
                let name = trimmed(l.subrange(q + 1, l.len() as int));
                if name.len() > 0 && !seq_contains(name, "audio"@) {
                    Some((idx, name))
                } else {
                    None
                }
            } else {
                None
            },
        }
    }
}

/// The video devices of a listing: the device lines after the video
/// header and before the audio header.
pub open spec fn scan_devices(lines: Seq<Seq<char>>, in_video: bool) -> Seq<(usize, Seq<char>)>
    decreases lines.len(),
{
    if lines.len() == 0 {
        Seq::empty()
    } else {
        let l = lines[0];
        let rest = lines.drop_first();
        if seq_contains(l, "AVFoundation video devices"@) {
            scan_devices(rest, true)
        } else if seq_contains(l, "AVFoundation audio devices"@) {
            Seq::empty()
        } else {
            let here: Seq<(usize, Seq<char>)> = if in_video && seq_contains(l, "[AVFoundation indev"@) {
                match device_of_line(l) {
                    Some(d) => seq![d],
                    None => Seq::empty(),
                }
            } else {
                Seq::empty()
            };
            here + scan_devices(rest, in_video)
        }
    }
}

/// Appends a character to a string (`String::push`, which the standard
/// library documents as appending the char to the end).
#[verifier::external_body]
fn push_char(s: &mut String, c: char)
    ensures
        final(s)@ == old(s)@.push(c),
{
    s.push(c);
}

/// The characters of a `Vec<char>` as a `String`, in order.
fn string_from_chars(v: &Vec<char>) -> (s: String)
    ensures
        s@ == v@,
{
    let mut s = String::new();
    let n = v.len();
    for i in 0..n
        invariant
            n == v@.len(),
            s@ == v@.take(i as int),
    {
        push_char(&mut s, v[i]);
        assert(v@.take(i + 1) =~= v@.take(i as int).push(v@[i as int]));
    }
    assert(v@.take(n as int) =~= v@);
    s
}

/// Whether `pat` occurs in `s`.
pub fn contains_chars(s: &Vec<char>, pat: &Vec<char>) -> (b: bool)
    ensures
        b == seq_contains(s@, pat@),
{
    let n = s.len();
    let m = pat.len();
    if m > n {
        return false;
    }
    let mut i: usize = 0;
    while i <= n - m
        invariant
            m <= n,
            n == s@.len(),
            m == pat@.len(),
            i <= n - m + 1,
            forall|k: int| 0 <= k < i ==> #[trigger] s@.subrange(k, k + m) != pat@,
        decreases n - m + 1 - i,
    {
        let mut j: usize = 0;
        let mut same = true;
        while j < m
            invariant
                j <= m,
                i + m <= n,
                n == s@.len(),
                m == pat@.len(),
                same == (forall|t: int| 0 <= t < j ==> s@[i + t] == pat@[t]),
            decreases m - j,
        {
            if s[i + j] != pat[j] {
                same = false;
            }
            j = j + 1;
        }
        if same {
            assert(s@.subrange(i as int, i + m) =~= pat@);
            return true;
        }
        assert(s@.subrange(i as int, i + m) != pat@) by {
            let t = choose|t: int| 0 <= t < m && s@[i + t] != pat@[t];
            assert(s@.subrange(i as int, i + m)[t] == s@[i + t]);
        }
        i = i + 1;
    }
    false
}


/// The characters of `v` from `a` to `b`.
fn copy_range(v: &Vec<char>, a: usize, b: usize) -> (r: Vec<char>)
    requires
        a <= b <= v@.len(),
    ensures
        r@ == v@.subrange(a as int, b as int),
{
    let mut r: Vec<char> = Vec::new();
    let mut i = a;
    while i < b
        invariant
            a <= i <= b,
            b <= v@.len(),
            r@ == v@.subrange(a as int, i as int),
        decreases b - i,
    {
        r.push(v[i]);
        assert(v@.subrange(a as int, i + 1) =~= v@.subrange(a as int, i as int).push(v@[i as int]));
        i = i + 1;
    }
    r
}

/// First index at or after `i` where `c` occurs, or the length if none.
fn find_from(v: &Vec<char>, c: char, i: usize) -> (k: usize)
    requires
        i <= v@.len(),
    ensures
        k == index_from(v@, c, i as int),
        i <= k <= v@.len(),
{
    proof {
        lemma_index_from_bounds(v@, c, i as int);
    }
    let mut k = i;
    while k < v.len() && v[k] != c
        invariant
            i <= k <= v@.len(),
            index_from(v@, c, k as int) == index_from(v@, c, i as int),
        decreases v@.len() - k,
    {
        k = k + 1;
    }
    k
}

/// The lines of a text, as `str::lines` yields them (see `lines_from`).
pub fn split_lines(v: &Vec<char>) -> (out: Vec<Vec<char>>)
    ensures
        out@.len() == lines_from(v@, 0).len(),
        forall|j: int| 0 <= j < out@.len() ==> (#[trigger] out@[j])@ == lines_from(v@, 0)[j],
{
    let n = v.len();
    let mut out: Vec<Vec<char>> = Vec::new();
    let ghost mut acc: Seq<Seq<char>> = Seq::empty();
    let mut pos: usize = 0;
    while pos < n
        invariant
            n == v@.len(),
            pos <= n,
            out@.len() == acc.len(),
            forall|j: int| 0 <= j < out@.len() ==> (#[trigger] out@[j])@ == acc[j],
            acc + lines_from(v@, pos as int) =~= lines_from(v@, 0),
        decreases n - pos,
    {
        let k = find_from(v, '\n', pos);
        if k == n {
            let piece = copy_range(v, pos, n);
            proof {
                assert(lines_from(v@, pos as int) == seq![v@.subrange(pos as int, n as int)]);
                assert(lines_from(v@, n as int) == Seq::<Seq<char>>::empty());
                acc = acc.push(piece@);
            }
            out.push(piece);
            pos = n;
        } else {
            let mut piece = copy_range(v, pos, k);
            if piece.len() > 0 && piece[piece.len() - 1] == '\r' {
                piece.pop();
            }
            proof {
                assert(piece@ == strip_cr(v@.subrange(pos as int, k as int)));
                assert(lines_from(v@, pos as int) == seq![piece@].add(lines_from(v@, k + 1)));
                assert(acc.push(piece@) + lines_from(v@, k + 1) =~= acc + (seq![piece@].add(lines_from(v@, k + 1))));
                acc = acc.push(piece@);
            }
            out.push(piece);
            pos = k + 1;
        }
    }
    proof {
        assert(lines_from(v@, pos as int) == Seq::<Seq<char>>::empty());
        assert(acc =~= lines_from(v@, 0));
    }
    out
}

proof fn lemma_last_index_bounds(s: Seq<char>, c: char, end: int)
    requires
        0 <= end <= s.len(),
    ensures
        -1 <= last_index_before(s, c, end) < end,
        last_index_before(s, c, end) >= 0 ==> s[last_index_before(s, c, end)] == c,
    decreases end,
{
    if end > 0 && s[end - 1] != c {
        lemma_last_index_bounds(s, c, end - 1);
    }
}

/// The device on one listing line (see `device_of_line`).
pub fn parse_device_line(l: &Vec<char>) -> (d: Option<(usize, Vec<char>)>)
    ensures
        d is None <==> device_of_line(l@) is None,
        d matches Some((idx, name)) ==> device_of_line(l@) == Some((idx, name@)),
{
    let n = l.len();
    proof {
        lemma_last_index_bounds(l@, '[', n as int);
    }
    let mut end = n;
    while end > 0 && l[end - 1] != '['
        invariant
            end <= n,
            n == l@.len(),
            last_index_before(l@, '[', end as int) == last_index_before(l@, '[', n as int),
        decreases end,
    {
        end = end - 1;
    }
    if end == 0 {
        return None;
    }
    let p = end - 1;
    assert(l@[p as int] == '[');
    let q = find_from(l, ']', p);
    proof {
        lemma_index_from_bounds(l@, ']', p as int);
    }
    if q >= n {
        return None;
    }
    let idx_part = copy_range(l, p + 1, q);
    let idx_trimmed = trim_chars(&idx_part);
    let idx = match parse_usize(&idx_trimmed) {
        Some(i) => i,
        None => return None,
    };
    if q + 1 >= n {
        return None;
    }
    let rest = copy_range(l, q + 1, n);
    let name = trim_chars(&rest);
    let audio = chars_of("audio");
    if name.len() > 0 && !contains_chars(&name, &audio) {
        Some((idx, name))
    } else {
        None
    }
}

/// The video devices listed by `ffmpeg -f avfoundation -list_devices true`
/// (see `scan_devices`), in listing order.
pub fn parse_avfoundation_devices(output: &str) -> (devices: Vec<(usize, String)>)
    ensures
        devices@.len() == scan_devices(lines_from(output@, 0), false).len(),
        forall|j: int|
            0 <= j < devices@.len() ==> (#[trigger] devices@[j]).0 == scan_devices(lines_from(output@, 0), false)[j].0
                && devices@[j].1@ == scan_devices(lines_from(output@, 0), false)[j].1,
{
    let chars = chars_of(output);
    let lines = split_lines(&chars);
    let ghost all = lines_from(output@, 0);
    let video_header = chars_of("AVFoundation video devices");
    let audio_header = chars_of("AVFoundation audio devices");
    let device_marker = chars_of("[AVFoundation indev");
    let mut devices: Vec<(usize, String)> = Vec::new();
    let ghost mut found: Seq<(usize, Seq<char>)> = Seq::empty();
    let mut in_video = false;
    let n = lines.len();
    let mut i: usize = 0;
    assert(all.skip(0) =~= all);
    while i < n
        invariant
            n == lines@.len(),
            n == all.len(),
            i <= n,
            forall|j: int| 0 <= j < n ==> (#[trigger] lines@[j])@ == all[j],
            video_header@ == "AVFoundation video devices"@,
            audio_header@ == "AVFoundation audio devices"@,
            device_marker@ == "[AVFoundation indev"@,
            devices@.len() == found.len(),
            forall|j: int| 0 <= j < devices@.len() ==> (#[trigger] devices@[j]).0 == found[j].0
                && devices@[j].1@ == found[j].1,
            found + scan_devices(all.skip(i as int), in_video) =~= scan_devices(all, false),
        ensures
            i == n,
            devices@.len() == found.len(),
            forall|j: int| 0 <= j < devices@.len() ==> (#[trigger] devices@[j]).0 == found[j].0
                && devices@[j].1@ == found[j].1,
            found + scan_devices(all.skip(i as int), in_video) =~= scan_devices(all, false),
        decreases n - i,
    {
        let line = &lines[i];
        assert(all.skip(i as int)[0] == line@);
        assert(all.skip(i as int).drop_first() =~= all.skip(i + 1));
        if contains_chars(line, &video_header) {
            in_video = true;
        } else if contains_chars(line, &audio_header) {
            assert(scan_devices(all.skip(i as int), in_video) =~= Seq::<(usize, Seq<char>)>::empty());
            assert(found =~= scan_devices(all, false));
            assert(all.skip(n as int) =~= Seq::<Seq<char>>::empty());
            assert(scan_devices(all.skip(n as int), in_video) =~= Seq::<(usize, Seq<char>)>::empty());
            i = n;
            break;
        } else if in_video && contains_chars(line, &device_marker) {
            match parse_device_line(line) {
                Some((idx, name)) => {
                    let name_text = string_from_chars(&name);
                    proof {
                        found = found.push((idx, name@));
                    }
                    devices.push((idx, name_text));
                },
                None => {},
            }
        }
        i = i + 1;
    }
    proof {
        assert(all.skip(i as int) =~= Seq::<Seq<char>>::empty());
        assert(scan_devices(all.skip(i as int), in_video) =~= Seq::<(usize, Seq<char>)>::empty());
        assert(found =~= scan_devices(all, false));
    }
    devices
}


/// The device list to offer: the detected devices, or "Camera 0" when none
/// was detected.
pub fn with_fallback_camera(cameras: Vec<(usize, String)>) -> (offered: Vec<(usize, String)>)
    ensures
        cameras@.len() > 0 ==> offered@ == cameras@,
        cameras@.len() == 0 ==> offered@.len() == 1 && offered@[0].0 == 0 && offered@[0].1@ == "Camera 0"@,
{
    if cameras.len() == 0 {
        let mut offered: Vec<(usize, String)> = Vec::new();
        offered.push((0, String::from_str("Camera 0")));
        offered
    } else {
        cameras
    }
}

/// The id of the selected entry of the device list, or 0 when the selection
/// is past its end.
pub fn selected_camera_id(devices: &Vec<(usize, String)>, selected: usize) -> (id: usize)
    ensures
        selected < devices@.len() ==> id == devices@[selected as int].0,
        selected >= devices@.len() ==> id == 0,
{
    if selected < devices.len() {
        devices[selected].0
    } else {
        0
    }
}

/// The position of the first entry with camera id `id`, or 0 when there is none.
pub fn camera_position(devices: &Vec<(usize, String)>, id: usize) -> (pos: usize)
    ensures
        (exists|k: int| 0 <= k < devices@.len() && devices@[k].0 == id) ==> (pos < devices@.len()
            && devices@[pos as int].0 == id && forall|k: int| 0 <= k < pos ==> #[trigger] devices@[k].0 != id),
        !(exists|k: int| 0 <= k < devices@.len() && devices@[k].0 == id) ==> pos == 0,
{
    let n = devices.len();
    let mut i: usize = 0;
    while i < n
        invariant
            n == devices@.len(),
            i <= n,
            forall|k: int| 0 <= k < i ==> #[trigger] devices@[k].0 != id,
        decreases n - i,
    {
        if devices[i].0 == id {
            return i;
        }
        i = i + 1;
    }
    0
}

/// The capture settings to try in order: each frame rate the devices are
/// known to accept, then letting ffmpeg negotiate (`None`).
pub fn capture_framerates() -> (plan: Vec<Option<&'static str>>)
    ensures
        plan@.len() == 5,
        plan@[0] matches Some(r) && r@ == "60"@,
        plan@[1] matches Some(r) && r@ == "30"@,
        plan@[2] matches Some(r) && r@ == "24"@,
        plan@[3] matches Some(r) && r@ == "15"@,
        plan@[4] is None,
{
    vec![Some("60"), Some("30"), Some("24"), Some("15"), None]
}


/// What the `image` crate decodes from an image file's bytes, the format
/// being chosen by the file name's extension (as `image::open` does): the
/// width, the height and the pixels as RGB bytes, or nothing when the
/// extension names no supported format or the bytes do not decode.
pub uninterp spec fn decoded_rgb8(bytes: Seq<u8>, ext: Seq<char>) -> Option<(u32, u32, Seq<u8>)>;

/// Decodes an image file's bytes in the format its extension names
/// (`image::ImageFormat::from_extension`, `image::load_from_memory_with_format`,
/// then `DynamicImage::to_rgb8`). The result is named `decoded_rgb8`.
#[verifier::external_body]
fn decode_rgb8(bytes: &[u8], ext: &str) -> (r: Option<(u32, u32, Vec<u8>)>)
    ensures
        r is None <==> decoded_rgb8(bytes@, ext@) is None,
        r matches Some((w, h, p)) ==> decoded_rgb8(bytes@, ext@) == Some((w, h, p@)),
{
    let format = image::ImageFormat::from_extension(ext)?;
    let img = image::load_from_memory_with_format(bytes, format).ok()?.to_rgb8();
    Some((img.width(), img.height(), img.into_raw()))
}

/// The width and height of an image file, given its bytes and its name's
/// extension; `None` when it does not decode.
pub fn get_image_dimensions(bytes: &[u8], ext: &str) -> (r: Option<(u32, u32)>)
    ensures
        decoded_rgb8(bytes@, ext@) is None ==> r is None,
        decoded_rgb8(bytes@, ext@) matches Some((w, h, _p)) ==> r == Some((w, h)),
{
    match decode_rgb8(bytes, ext) {
        Some((w, h, _pixels)) => Some((w, h)),
        None => None,
    }
}

/// The pixels of an image file as RGB bytes, for display, given its bytes
/// and its name's extension; `None` when it does not decode.
pub fn load_image_for_display(bytes: &[u8], ext: &str) -> (r: Option<Vec<u8>>)
    ensures
        decoded_rgb8(bytes@, ext@) is None ==> r is None,
        decoded_rgb8(bytes@, ext@) matches Some((_w, _h, p)) ==> (r matches Some(v) && v@ == p),
{
    match decode_rgb8(bytes, ext) {
        Some((_w, _h, pixels)) => Some(pixels),
        None => None,
    }
}

} // verus!
