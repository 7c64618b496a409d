use vstd::prelude::*;
use crate::error::ClientError;

verus! {

/// An absolute URL of a mint, held as the parts that endpoint paths are joined to: all that
/// comes before the path, the path (as its segments, unless the URL cannot be a base), and
/// all that comes after it.
#[derive(Debug, Clone)]
pub struct MintUrl {
    pub prefix: String,
    pub segments: Option<Vec<String>>,
    pub opaque_path: String,
    pub suffix: String,
}

pub open spec fn strings_view(v: Seq<String>) -> Seq<Seq<char>> {
    v.map_values(|s: String| s@)
}

pub open spec fn segments_view(o: Option<Vec<String>>) -> Option<Seq<Seq<char>>> {
    match o {
        Some(v) => Some(strings_view(v@)),
        None => None,
    }
}

/// The segments joined by `/`.
pub open spec fn joined(segs: Seq<Seq<char>>) -> Seq<char>
    decreases segs.len(),
{
    if segs.len() == 0 {
        Seq::empty()
    } else if segs.len() == 1 {
        segs[0]
    } else {
        joined(segs.drop_last()) + seq!['/'] + segs.last()
    }
}

/// The path of a URL with these segments.
pub open spec fn path_of(segs: Seq<Seq<char>>) -> Seq<char> {
    seq!['/'] + joined(segs)
}

/// The segments after appending `path`: a trailing empty segment (a path ending in `/`) is
/// dropped first, so that no separator is doubled or missing.
pub open spec fn joined_segments(segs: Seq<Seq<char>>, path: Seq<Seq<char>>) -> Seq<Seq<char>> {
    if segs.len() > 0 && segs.last().len() == 0 {
        segs.drop_last() + path
    } else {
        segs + path
    }
}

/// The parts of the URL in `text` (before the path, the path's segments where it can be a
/// base, the path where it cannot, after the path), where `text` is a valid URL.
pub uninterp spec fn url_parts_of(text: Seq<char>) -> Option<
    (Seq<char>, Option<Seq<Seq<char>>>, Seq<char>, Seq<char>),
>;

/// Relies on url::Url::parse, Url::path_segments, Url::path and slicing by url::Position: the
/// parts of a valid URL. `path_segments` yields at least one segment where it yields any.
#[verifier::external_body]
fn parse_url_parts(text: &str) -> (r: Result<
    (String, Option<Vec<String>>, String, String),
    url::ParseError,
>)
    ensures
        match r {
            Ok((p, s, o, x)) => url_parts_of(text@) == Some((p@, segments_view(s), o@, x@)) && (
            s matches Some(v) ==> v@.len() >= 1),
            Err(_) => url_parts_of(text@) is None,
        },
{
    let u = url::Url::parse(text)?;
    let segments = u.path_segments().map(|it| it.map(|p| p.to_string()).collect());
    let prefix = u[..url::Position::BeforePath].to_string();
    let suffix = u[url::Position::AfterPath..].to_string();
    Ok((prefix, segments, u.path().to_string(), suffix))
}

proof fn lemma_joined_concat(a: Seq<Seq<char>>, b: Seq<Seq<char>>)
    requires
        a.len() > 0,
        b.len() > 0,
    ensures
        joined(a + b) == joined(a) + seq!['/'] + joined(b),
    decreases b.len(),
{
    let ab = a + b;
    assert(ab.drop_last() =~= if b.len() == 1 {
        a
    } else {
        a + b.drop_last()
    });
    assert(ab.last() == b.last());
    if b.len() > 1 {
        lemma_joined_concat(a, b.drop_last());
        assert(joined(b) == joined(b.drop_last()) + seq!['/'] + b.last());
        assert(joined(ab) =~= joined(a) + seq!['/'] + joined(b));
    }
}

/// Joining segments onto a base URL's path gives the base path, less a trailing `/`,
/// then one `/` and the new segments: a base that ends in `/` gets no second one, and a base
/// that does not gets one.
pub proof fn join_keeps_one_separator(segs: Seq<Seq<char>>, path: Seq<Seq<char>>)
    requires
        segs.len() >= 1,
        path.len() >= 1,
    ensures
        ({
            let base = if segs.last().len() == 0 {
                segs.drop_last()
            } else {
                segs
            };
            path_of(joined_segments(segs, path)) == if base.len() == 0 {
                seq!['/'] + joined(path)
            } else {
                path_of(base) + seq!['/'] + joined(path)
            }
        }),
{
    let base = if segs.last().len() == 0 {
        segs.drop_last()
    } else {
        segs
    };
    assert(joined_segments(segs, path) == base + path);
    if base.len() == 0 {
        assert(base + path =~= path);
    } else {
        lemma_joined_concat(base, path);
        assert(path_of(base + path) =~= path_of(base) + seq!['/'] + joined(path));
    }
}

impl MintUrl {
    pub open spec fn path_view(&self) -> Option<Seq<Seq<char>>> {
        segments_view(self.segments)
    }

    /// Parses an absolute URL.
    pub fn parse(text: &str) -> (r: Result<MintUrl, ClientError>)
        ensures
            match url_parts_of(text@) {
                Some((p, s, o, x)) => match r {
                    Ok(u) => u.prefix@ == p && u.path_view() == s && u.opaque_path@ == o
                        && u.suffix@ == x,
                    Err(_) => false,
                },
                None => r matches Err(ClientError::UrlParse(_)),
            },
    {
        match parse_url_parts(text) {
            Ok((prefix, segments, opaque_path, suffix)) => Ok(
                MintUrl { prefix, segments, opaque_path, suffix },
            ),
            Err(e) => Err(ClientError::UrlParse(e)),
        }
    }

    /// The URL as text.
    pub fn as_string(&self) -> (r: String)
        ensures
            r@ == self.prefix@ + match self.path_view() {
                Some(segs) => path_of(segs),
                None => self.opaque_path@,
            } + self.suffix@,
    {
        let mut out = self.prefix.clone();
        match &self.segments {
            Some(segs) => {
                out.append("/");
                proof {
                    reveal_strlit("/");
                }
                let ghost start = out@;
                let mut i: usize = 0;
                while i < segs.len()
                    invariant
                        i <= segs@.len(),
                        out@ == start + joined(strings_view(segs@.subrange(0, i as int))),
                        start == self.prefix@ + seq!['/'],
                    decreases segs.len() - i,
                {
                    proof {
                        reveal_strlit("/");
                    }
                    let ghost sv = strings_view(segs@.subrange(0, i + 1));
                    assert(sv.drop_last() =~= strings_view(segs@.subrange(0, i as int)));
                    assert(sv.last() == segs@[i as int]@);
                    assert(i == 0 ==> sv.len() == 1);
                    if i > 0 {
                        out.append("/");
                    }
                    out.append(segs[i].as_str());
                    i = i + 1;
                }
                assert(segs@.subrange(0, segs@.len() as int) =~= segs@);
            },
            None => {
                out.append(self.opaque_path.as_str());
            },
        }
        out.append(self.suffix.as_str());
        out
    }
}

/// Appends path segments to a mint URL, without doubling a trailing `/`.
pub fn join_url(url: MintUrl, path: &[&str]) -> (r: Result<MintUrl, ClientError>)
    ensures
        match url.path_view() {
            Some(segs) => match r {
                Ok(u) => u.prefix == url.prefix && u.suffix == url.suffix && u.path_view() == Some(
                    joined_segments(segs, path@.map_values(|p: &str| p@)),
                ),
                Err(_) => false,
            },
            None => r matches Err(ClientError::UrlConstruction),
        },
{
    let MintUrl { prefix, segments, opaque_path, suffix } = url;
    match segments {
        None => Err(ClientError::UrlConstruction),
        Some(mut segs) => {
            let ghost base = strings_view(segs@);
            let n = segs.len();
            if n > 0 && segs[n - 1].unicode_len() == 0 {
                segs.pop();
                assert(strings_view(segs@) =~= base.drop_last());
            }
            let ghost start = strings_view(segs@);
            let mut i: usize = 0;
            while i < path.len()
                invariant
                    i <= path@.len(),
                    strings_view(segs@) == start + path@.subrange(0, i as int).map_values(
                        |p: &str| p@,
                    ),
                decreases path.len() - i,
            {
                let ghost prev = segs@;
                segs.push(str::to_owned(path[i]));
                assert(strings_view(segs@) =~= strings_view(prev).push(path@[i as int]@));
                assert(path@.subrange(0, i + 1).map_values(|p: &str| p@) =~= path@.subrange(
                    0,
                    i as int,
                ).map_values(|p: &str| p@).push(path@[i as int]@));
                assert(strings_view(segs@) =~= start + path@.subrange(0, i + 1).map_values(
                    |p: &str| p@,
                ));
                i = i + 1;
            }
            assert(path@.subrange(0, path@.len() as int) =~= path@);
            Ok(MintUrl { prefix, segments: Some(segs), opaque_path, suffix })
        },
    }
}

} // verus!
