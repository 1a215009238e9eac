use vstd::prelude::*;

verus! {

/// The name of the HTML file written for a source file: the source name
/// without its three-character extension (`.md`), followed by `.html`. A name
/// of three characters or fewer has nothing removed.
pub open spec fn html_name(source: Seq<char>) -> Seq<char> {
    let stem = if source.len() > 3 {
        source.subrange(0, source.len() - 3)
    } else {
        source
    };
    stem + ".html"@
}

pub fn html_file_name(source: &str) -> (r: String)
    ensures
        r@ == html_name(source@),
{
    let n = source.unicode_len();
    let stem = if n > 3 {
        source.substring_char(0, n - 3)
    } else {
        source
    };
    let mut r = String::from_str(stem);
    r.append(".html");
    r
}

} // verus!
