use vstd::prelude::*;
use crate::error::InstallError;
use crate::text::{chars_of, push_range};

verus! {

/// Where an artifact is fetched from and where it is stored.
#[derive(Debug, Clone, PartialEq, Eq)]
pub struct ResolvedArtifact {
    /// Repository base joined with `relative_path`.
    pub download_url: String,
    /// `group/with/slashes/artifact/version/artifact-version.jar`.
    pub relative_path: String,
}

/// Index of the first `c` in `s`, if any.
pub open spec fn first_index(s: Seq<char>, c: char) -> Option<int>
    decreases s.len(),
{
    if s.len() == 0 {
        None
    } else if s[0] == c {
        Some(0)
    } else {
        match first_index(s.drop_first(), c) {
            Some(i) => Some(i + 1),
            None => None,
        }
    }
}

/// The first index found is in range and holds `c`.
pub proof fn lemma_first_index(s: Seq<char>, c: char)
    ensures
        match first_index(s, c) {
            Some(i) => 0 <= i < s.len() && s[i] == c,
            None => true,
        },
    decreases s.len(),
{
    if s.len() > 0 && s[0] != c {
        lemma_first_index(s.drop_first(), c);
    }
}

/// A coordinate split on its first two colons: group, artifact and version.
pub open spec fn split_coordinate(s: Seq<char>) -> Option<(Seq<char>, Seq<char>, Seq<char>)> {
    match first_index(s, ':') {
        None => None,
        Some(i) => {
            let rest = s.subrange(i + 1, s.len() as int);
            match first_index(rest, ':') {
                None => None,
                Some(j) => Some(
                    (
                        s.subrange(0, i),
                        rest.subrange(0, j),
                        rest.subrange(j + 1, rest.len() as int),
                    ),
                ),
            }
        },
    }
}

/// A dotted group with every `.` turned into `/`.
pub open spec fn slashed(g: Seq<char>) -> Seq<char> {
    g.map_values(|c: char| if c == '.' { '/' } else { c })
}

/// `group/with/slashes/artifact/version/artifact-version.jar`.
pub open spec fn artifact_path(g: Seq<char>, a: Seq<char>, v: Seq<char>) -> Seq<char> {
    slashed(g) + seq!['/'] + a + seq!['/'] + v + seq!['/'] + a + seq!['-'] + v + seq![
        '.',
        'j',
        'a',
        'r',
    ]
}

/// A repository base joined with a relative path by exactly one `/`
/// (none is added where the base already ends with one).
pub open spec fn join_url(base: Seq<char>, path: Seq<char>) -> Seq<char> {
    if base.len() > 0 && base.last() == '/' {
        base + path
    } else {
        base + seq!['/'] + path
    }
}

/// What `resolve_coordinate` returns on a coordinate and a repository base.
pub open spec fn resolved(coordinate: Seq<char>, repository: Seq<char>) -> Option<
    (Seq<char>, Seq<char>),
> {
    match split_coordinate(coordinate) {
        None => None,
        Some((g, a, v)) => {
            let p = artifact_path(g, a, v);
            Some((join_url(repository, p), p))
        },
    }
}

/// Position of the first `c` in `v[from..]`, as an index into `v`.
fn find_from(v: &Vec<char>, c: char, from: usize) -> (r: Option<usize>)
    requires
        from <= v@.len(),
    ensures
        match first_index(v@.subrange(from as int, v@.len() as int), c) {
            None => r is None,
            Some(i) => r == Some((from + i) as usize),
        },
{
    let mut i: usize = v.len();
    let ghost s = v@.subrange(from as int, v@.len() as int);
    // Walk backwards so that the spec's recursion unfolds on each suffix.
    let mut found: Option<usize> = None;
    while i > from
        invariant
            from <= i <= v@.len(),
            s == v@.subrange(from as int, v@.len() as int),
            match first_index(v@.subrange(i as int, v@.len() as int), c) {
                None => found is None,
                Some(k) => found == Some((i + k) as usize),
            },
        decreases i - from,
    {
        i = i - 1;
        let ghost t = v@.subrange(i as int, v@.len() as int);
        assert(t.drop_first() =~= v@.subrange(i + 1, v@.len() as int));
        if v[i] == c {
            found = Some(i);
        }
    }
    found
}

/// Appends the dotted group `v[..to]` in its path form, `/` for `.`.
fn push_slashed(out: &mut String, v: &Vec<char>, to: usize)
    requires
        to <= v@.len(),
    ensures
        final(out)@ == old(out)@ + slashed(v@.subrange(0, to as int)),
{
    let mut i: usize = 0;
    while i < to
        invariant
            i <= to <= v@.len(),
            out@ == old(out)@ + slashed(v@.subrange(0, i as int)),
        decreases to - i,
    {
        let c = v[i];
        if c == '.' {
            out.push('/');
        } else {
            out.push(c);
        }
        i = i + 1;
        assert(slashed(v@.subrange(0, i as int)) =~= slashed(v@.subrange(0, (i - 1) as int)).push(
            if c == '.' { '/' } else { c },
        ));
        assert(out@ =~= old(out)@ + slashed(v@.subrange(0, i as int)));
    }
}

/// The relative path of the artifact whose coordinate `v` has its colons at
/// `i` and `j`.
fn build_path(v: &Vec<char>, i: usize, j: usize) -> (path: String)
    requires
        i < j < v@.len(),
    ensures
        path@ == artifact_path(
            v@.subrange(0, i as int),
            v@.subrange(i + 1, j as int),
            v@.subrange(j + 1, v@.len() as int),
        ),
{
    let n = v.len();
    let mut path = String::new();
    push_slashed(&mut path, v, i);
    path.push('/');
    push_range(&mut path, v, i + 1, j);
    path.push('/');
    push_range(&mut path, v, j + 1, n);
    path.push('/');
    push_range(&mut path, v, i + 1, j);
    path.push('-');
    push_range(&mut path, v, j + 1, n);
    path.push('.');
    path.push('j');
    path.push('a');
    path.push('r');
    assert(path@ =~= artifact_path(
        v@.subrange(0, i as int),
        v@.subrange(i + 1, j as int),
        v@.subrange(j + 1, n as int),
    ));
    path
}

/// The repository base joined with `path`.
fn build_url(repository: &str, path: &String) -> (url: String)
    ensures
        url@ == join_url(repository@, path@),
{
    let mut url = repository.to_owned();
    let rn = repository.unicode_len();
    if rn == 0 || repository.get_char(rn - 1) != '/' {
        url.push('/');
    }
    url.append(path.as_str());
    assert(url@ =~= join_url(repository@, path@));
    url
}

/// Maps a `group:artifact:version` coordinate and a repository base URL to
/// the artifact's download URL and its path relative to a library root.
/// The coordinate is split on its first two colons; a coordinate with fewer
/// is refused.
pub fn resolve_coordinate(coordinate: &str, repository: &str) -> (r: Result<
    ResolvedArtifact,
    InstallError,
>)
    ensures
        match resolved(coordinate@, repository@) {
            None => r is Err && r->Err_0 is MalformedCoordinate
                && r->Err_0->MalformedCoordinate_0@ == coordinate@,
            Some((url, path)) => r is Ok && r->Ok_0.download_url@ == url
                && r->Ok_0.relative_path@ == path,
        },
{
    let v = chars_of(coordinate);
    let n = v.len();
    let first = find_from(&v, ':', 0);
    assert(v@.subrange(0, n as int) =~= coordinate@);
    proof {
        lemma_first_index(coordinate@, ':');
    }
    match first {
        None => Err(InstallError::MalformedCoordinate(coordinate.to_owned())),
        Some(i) => {
            let second = find_from(&v, ':', i + 1);
            proof {
                lemma_first_index(coordinate@.subrange(i + 1, coordinate@.len() as int), ':');
            }
            match second {
                None => Err(InstallError::MalformedCoordinate(coordinate.to_owned())),
                Some(j) => {
                    let path = build_path(&v, i, j);
                    let url = build_url(repository, &path);
                    let ghost rest = coordinate@.subrange(i + 1, coordinate@.len() as int);
                    assert(rest.subrange(0, j - i - 1) =~= v@.subrange(i + 1, j as int));
                    assert(rest.subrange(j - i, rest.len() as int) =~= v@.subrange(
                        j + 1,
                        n as int,
                    ));
                    Ok(ResolvedArtifact { download_url: url, relative_path: path })
                },
            }
        },
    }
}

} // verus!
