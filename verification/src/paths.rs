//! The output path planner: a deterministic, collision-free layout derived
//! from report metadata alone, so that size-based skip detection finds the
//! same file on every run.
//!
//! Layout: `{output}/키즈노트 {child}/알림장/{YYYY-MM}/`, with file stems
//! `{YYYYMMDD}_{child}_{label}_{report id}` and `_{image id}.{ext}` appended
//! for each attached image (`png` when the source name has no extension).

use vstd::prelude::*;
use vstd::string::{StrSliceExecFns, StringExecFns};

use crate::dates::{civil_from_timestamp, civil_of, spec_compact_date, spec_year_month,
MAX_TIMESTAMP};
use crate::download::DownloadSource;
use crate::resource::ResourceImageModel;
use crate::strutil::{spec_dec_digits, u64_to_string};

verus! {

/// Index of the last occurrence of `c` in `s`, or `-1`.
pub open spec fn spec_rfind(s: Seq<char>, c: char) -> int
    decreases s.len(),
{
    if s.len() == 0 {
        -1
    } else if s.last() == c {
        s.len() - 1
    } else {
        spec_rfind(s.drop_last(), c)
    }
}

/// The extension of a file name, by the usual path rule: the part of the
/// final path component after its last `.`, unless the component has no
/// `.` past its first character.
pub open spec fn spec_extension(name: Seq<char>) -> Option<Seq<char>> {
    let component = name.skip(spec_rfind(name, '/') + 1);
    let d = spec_rfind(component, '.');
    if d <= 0 {
        None
    } else {
        Some(component.skip(d + 1))
    }
}

/// The extension used for a stored image: the source name's, or `png`.
pub open spec fn spec_extension_or_png(name: Seq<char>) -> Seq<char> {
    match spec_extension(name) {
        Some(e) => e,
        None => "png"@,
    }
}

proof fn lemma_rfind_at(s: Seq<char>, c: char, i: int)
    requires
        -1 <= i < s.len(),
        i >= 0 ==> s[i] == c,
        forall|k: int| i < k < s.len() ==> s[k] != c,
    ensures
        spec_rfind(s, c) == i,
    decreases s.len(),
{
    if s.len() != 0 && s.last() != c {
        lemma_rfind_at(s.drop_last(), c, i);
    }
}

/// Index of the last occurrence of `c`, scanning from the end.
fn rfind_char(s: &str, c: char) -> (r: Option<usize>)
    ensures
        match r {
            Some(i) => spec_rfind(s@, c) == i && i < s@.len(),
            None => spec_rfind(s@, c) == -1,
        },
{
    let len = s.unicode_len();
    let mut j: usize = len;
    while j > 0
        invariant
            j <= len,
            len == s@.len(),
            forall|k: int| j <= k < len ==> s@[k] != c,
        decreases j,
    {
        j = j - 1;
        if s.get_char(j) == c {
            proof {
                lemma_rfind_at(s@, c, j as int);
            }
            return Some(j);
        }
    }
    proof {
        lemma_rfind_at(s@, c, -1);
    }
    None
}

/// The extension of `name`, or `png` when it has none.
pub fn extension_or_png(name: &str) -> (r: String)
    ensures
        r@ == spec_extension_or_png(name@),
{
    let len = name.unicode_len();
    let comp_start: usize = match rfind_char(name, '/') {
        Some(i) => i + 1,
        None => 0,
    };
    let component = name.substring_char(comp_start, len);
    proof {
        assert(component@ =~= name@.skip(spec_rfind(name@, '/') + 1));
    }
    let comp_len = component.unicode_len();
    match rfind_char(component, '.') {
        Some(d) if d > 0 => {
            let ext = component.substring_char(d + 1, comp_len);
            proof {
                assert(ext@ =~= component@.skip(d + 1));
            }
            String::from_str(ext)
        },
        _ => String::from_str("png"),
    }
}

/// The month directory of a report:
/// `{output}/키즈노트 {child}/알림장/{YYYY-MM}`.
pub open spec fn spec_report_dir(
    output_dir: Seq<char>,
    child_name: Seq<char>,
    y: int,
    m: int,
) -> Seq<char> {
    output_dir + "/"@ + "키즈노트 "@ + child_name + "/"@ + "알림장"@ + "/"@ + spec_year_month(
        y,
        m,
    )
}

/// The file-name stem of a report's artifacts:
/// `{dir}/{YYYYMMDD}_{child}_{label}_{report id}`.
pub open spec fn spec_report_stem(
    dir: Seq<char>,
    y: int,
    m: int,
    d: int,
    child_name: Seq<char>,
    source_type: Seq<char>,
    source_id: u64,
) -> Seq<char> {
    dir + "/"@ + spec_compact_date(y, m, d) + "_"@ + child_name + "_"@ + source_type + "_"@
        + spec_dec_digits(source_id as int)
}

/// The path of one stored image: `{stem}_{image id}.{ext}`.
pub open spec fn spec_image_path(stem: Seq<char>, image: ResourceImageModel) -> Seq<char> {
    stem + "_"@ + spec_dec_digits(image.id as int) + "."@ + spec_extension_or_png(
        image.original_file_name,
    )
}

/// The planned output files of one report.
#[derive(Debug)]
pub struct PlannedPaths {
    /// The month directory the files live in.
    pub base_dir: String,
    /// The text artifact of the report's content.
    pub text_path: String,
    /// The rendered image of the report's content.
    pub rendered_image_path: String,
    /// One path per attached image, in the report's order.
    pub image_paths: Vec<String>,
}

/// Plan the output layout of one report. The result is a function of the
/// report's metadata and the output directory alone — two calls on the
/// same report give identical paths, which makes size-based skip detection
/// find the file a previous run wrote. `None` exactly when the report's
/// timestamp lies outside the supported range (negative, or past the year
/// 9999).
pub fn plan_paths(source: &DownloadSource, output_dir: &str) -> (r: Option<PlannedPaths>)
    ensures
        r is Some <==> 0 <= source.report_date <= MAX_TIMESTAMP,
        match r {
            Some(p) => {
                let (y, m, d) = civil_of(source.report_date as int);
                let dir = spec_report_dir(output_dir@, source.child_name@, y, m);
                let stem = spec_report_stem(
                    dir,
                    y,
                    m,
                    d,
                    source.child_name@,
                    source.source_type@,
                    source.source_id,
                );
                &&& p.base_dir@ == dir
                &&& p.text_path@ == stem + ".txt"@
                &&& p.rendered_image_path@ == stem + ".jpg"@
                &&& p.image_paths.deep_view() == source.attached_images.deep_view().map_values(
                    |img: ResourceImageModel| spec_image_path(stem, img),
                )
            },
            None => true,
        },
{
    if !(0 <= source.report_date && source.report_date <= MAX_TIMESTAMP) {
        return None;
    }
    let (y, m, d) = civil_from_timestamp(source.report_date);
    let mut dir = String::from_str(output_dir);
    dir.append("/");
    dir.append("키즈노트 ");
    dir.append(source.child_name.as_str());
    dir.append("/");
    dir.append("알림장");
    dir.append("/");
    let ym = crate::dates::year_month_string(source.report_date);
    dir.append(ym.as_str());

    let mut stem = dir.clone();
    stem.append("/");
    let ymd = crate::dates::compact_date_string(source.report_date);
    stem.append(ymd.as_str());
    stem.append("_");
    stem.append(source.child_name.as_str());
    stem.append("_");
    stem.append(source.source_type.as_str());
    stem.append("_");
    let id_digits = u64_to_string(source.source_id);
    stem.append(id_digits.as_str());

    let mut text_path = stem.clone();
    text_path.append(".txt");
    let mut rendered_image_path = stem.clone();
    rendered_image_path.append(".jpg");

    let ghost spec_stem = spec_report_stem(
        spec_report_dir(output_dir@, source.child_name@, y as int, m as int),
        y as int,
        m as int,
        d as int,
        source.child_name@,
        source.source_type@,
        source.source_id,
    );
    proof {
        assert(stem@ =~= spec_stem);
    }

    let mut image_paths: Vec<String> = Vec::new();
    let mut i: usize = 0;
    while i < source.attached_images.len()
        invariant
            i <= source.attached_images@.len(),
            stem@ == spec_stem,
            image_paths.deep_view() =~= source.attached_images.deep_view().take(i as int)
                .map_values(|img: ResourceImageModel| spec_image_path(spec_stem, img)),
        decreases source.attached_images@.len() - i,
    {
        let image = &source.attached_images[i];
        let mut p = stem.clone();
        p.append("_");
        let img_digits = u64_to_string(image.id);
        p.append(img_digits.as_str());
        p.append(".");
        let ext = extension_or_png(image.original_file_name.as_str());
        p.append(ext.as_str());
        proof {
            assert(p@ =~= spec_image_path(spec_stem, source.attached_images@[i as int]@));
        }
        let ghost prev = image_paths.deep_view();
        image_paths.push(p);
        proof {
            assert(image_paths.deep_view() =~~= prev.push(p@));
            assert(prev.push(p@) =~~= source.attached_images.deep_view().take(i + 1).map_values(
                |img: ResourceImageModel| spec_image_path(spec_stem, img),
            ));
        }
        i = i + 1;
    }
    proof {
        assert(source.attached_images.deep_view().take(source.attached_images@.len() as int)
            =~= source.attached_images.deep_view());
    }
    Some(PlannedPaths { base_dir: dir, text_path, rendered_image_path, image_paths })
}

/// The title line of a report's rendered artifacts:
/// `제목 : {Y}년 {M}월 {D}일 {label}`, with unpadded month and day.
pub open spec fn spec_render_title(y: int, m: int, d: int, source_type: Seq<char>) -> Seq<char> {
    "제목 : "@ + spec_dec_digits(y) + "년 "@ + spec_dec_digits(m) + "월 "@ + spec_dec_digits(d)
        + "일"@ + " "@ + source_type
}

/// Compose the title of a report's text and image artifacts. `None`
/// exactly when the report's timestamp lies outside the supported range.
pub fn render_title(source: &DownloadSource) -> (r: Option<String>)
    ensures
        r is Some <==> 0 <= source.report_date <= MAX_TIMESTAMP,
        match r {
            Some(t) => {
                let (y, m, d) = civil_of(source.report_date as int);
                t@ == spec_render_title(y, m, d, source.source_type@)
            },
            None => true,
        },
{
    if !(0 <= source.report_date && source.report_date <= MAX_TIMESTAMP) {
        return None;
    }
    let (y, m, d) = civil_from_timestamp(source.report_date);
    let mut t = String::from_str("제목 : ");
    let ys = u64_to_string(y as u64);
    t.append(ys.as_str());
    t.append("년 ");
    let ms = u64_to_string(m as u64);
    t.append(ms.as_str());
    t.append("월 ");
    let ds = u64_to_string(d as u64);
    t.append(ds.as_str());
    t.append("일");
    t.append(" ");
    t.append(source.source_type.as_str());
    Some(t)
}

} // verus!
