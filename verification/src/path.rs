//! File names and extensions of slash-separated paths.

use vstd::prelude::*;

use crate::text::{
    after_last, behind_last, last_index, last_index_at, last_index_is_last, opt_str_view,
};

verus! {

/// The last component of `path`. Empty components and `.` are passed over; a path that ends in
/// `..`, or that holds no other component, names no file.
pub open spec fn file_name(path: Seq<char>) -> Option<Seq<char>>
    decreases path.len(),
{
    let at = last_index(path, '/');
    let piece = after_last(path, '/');
    if piece == ".."@ {
        None
    } else if piece.len() > 0 && piece != "."@ {
        Some(piece)
    } else if at < 0 {
        None
    } else {
        proof {
            last_index_is_last(path, '/');
        }
        file_name(path.take(at))
    }
}

/// What stands behind the last dot of the file name; a dot at its very start does not count.
pub open spec fn extension(path: Seq<char>) -> Option<Seq<char>> {
    match file_name(path) {
        Some(name) => if last_index(name, '.') > 0 {
            Some(after_last(name, '.'))
        } else {
            None
        },
        None => None,
    }
}

/// The file that `path` names.
pub fn file_name_of(path: &str) -> (res: Option<&str>)
    ensures
        opt_str_view(res) == file_name(path@),
{
    let mut rest = path;
    let mut size: usize = path.unicode_len();
    loop
        invariant
            size == rest@.len(),
            file_name(rest@) == file_name(path@),
        decreases size,
    {
        let piece = behind_last(rest, '/');
        let piece_size: usize = piece.unicode_len();
        proof {
            last_index_is_last(rest@, '/');
        }
        if *piece == *".." {
            return None;
        }
        if piece_size > 0 && !(*piece == *".") {
            return Some(piece);
        }
        if piece_size == size {
            return None;
        }
        let at: usize = size - piece_size - 1;
        let shorter = rest.substring_char(0, at);
        assert(shorter@ =~= rest@.take(last_index(rest@, '/')));
        rest = shorter;
        size = at;
    }
}

/// The extension of the file that `path` names.
pub fn extension_of(path: &str) -> (res: Option<&str>)
    ensures
        opt_str_view(res) == extension(path@),
{
    match file_name_of(path) {
        None => None,
        Some(name) => {
            let behind = behind_last(name, '.');
            let size: usize = name.unicode_len();
            let behind_size: usize = behind.unicode_len();
            proof {
                last_index_is_last(name@, '.');
            }
            // The last dot stands at `size - behind_size - 1`.
            if behind_size < size && size - behind_size > 1 {
                Some(behind)
            } else {
                None
            }
        },
    }
}

/// A file name is one component: it is not empty and holds no slash.
pub proof fn file_name_is_one_component(path: Seq<char>)
    ensures
        match file_name(path) {
            Some(name) => name.len() > 0 && !name.contains('/') && name != "."@ && name != ".."@,
            None => true,
        },
    decreases path.len(),
{
    let at = last_index(path, '/');
    let piece = after_last(path, '/');
    last_index_is_last(path, '/');
    assert(!piece.contains('/'));
    if piece != ".."@ && !(piece.len() > 0 && piece != "."@) && at >= 0 {
        file_name_is_one_component(path.take(at));
    }
}

/// A name in a directory, or on its own.
pub open spec fn is_named_in(path: Seq<char>, directory: Seq<char>, name: Seq<char>) -> bool {
    &&& path == directory + name
    &&& directory.len() > 0 ==> directory.last() == '/'
    &&& name.len() > 0
    &&& !name.contains('/')
    &&& name != "."@
    &&& name != ".."@
}

proof fn lemma_named_in(path: Seq<char>, directory: Seq<char>, name: Seq<char>)
    requires
        is_named_in(path, directory, name),
    ensures
        file_name(path) == Some(name),
{
    if directory.len() > 0 {
        assert forall|k: int| directory.len() - 1 < k < path.len() implies #[trigger] path[k]
            != '/' by {
            assert(name.contains(name[k - directory.len()]));
        }
        last_index_at(path, '/', directory.len() - 1);
        assert(after_last(path, '/') =~= name);
    } else {
        assert(path =~= name);
        last_index_is_last(path, '/');
        if last_index(path, '/') >= 0 {
            assert(name.contains(path[last_index(path, '/')]));
        }
        assert(after_last(path, '/') =~= name);
    }
}

/// A file is found by its name in whatever directory it stands.
pub proof fn file_names_stand_behind_their_directory(
    path: &str,
    directory: Seq<char>,
    name: Seq<char>,
    res: Option<&str>,
)
    requires
        call_ensures(file_name_of, (path,), res),
        is_named_in(path@, directory, name),
    ensures
        res matches Some(found) && found@ == name,
{
    lemma_named_in(path@, directory, name);
}

/// A slash, or a slash and a dot, behind a path make no difference to the file it names; behind a
/// slash and two dots there is no file.
pub proof fn trailing_slashes_do_not_matter(
    path: &str,
    longer: &str,
    res: Option<&str>,
    longer_res: Option<&str>,
)
    requires
        call_ensures(file_name_of, (path,), res),
        call_ensures(file_name_of, (longer,), longer_res),
    ensures
        longer@ == path@ + seq!['/'] || longer@ == path@ + seq!['/', '.'] ==> match res {
            Some(name) => longer_res matches Some(same) && same@ == name@,
            None => longer_res is None,
        },
        longer@ == path@ + seq!['/', '.', '.'] ==> longer_res is None,
{
    reveal_strlit(".");
    reveal_strlit("..");
    let s = longer@;
    let n = path@.len() as int;
    if s == path@ + seq!['/'] || s == path@ + seq!['/', '.'] || s == path@ + seq!['/', '.', '.'] {
        assert(s[n] == '/');
        last_index_at(s, '/', n);
        assert(s.take(n) =~= path@);
        if s == path@ + seq!['/', '.'] {
            assert(after_last(s, '/') =~= "."@);
        } else if s == path@ + seq!['/', '.', '.'] {
            assert(after_last(s, '/') =~= ".."@);
        }
    }
}

proof fn lemma_extension(path: Seq<char>, directory: Seq<char>, name: Seq<char>)
    requires
        is_named_in(path, directory, name),
    ensures
        extension(path) == if last_index(name, '.') > 0 {
            Some(after_last(name, '.'))
        } else {
            None
        },
{
    lemma_named_in(path, directory, name);
}

/// The extension of a file is what stands behind the last dot of its name, in whatever directory
/// it stands. A name without a dot, or with none but the one at its start, has none.
pub proof fn extensions_stand_behind_the_last_dot(
    path: &str,
    directory: Seq<char>,
    stem: Seq<char>,
    ext: Seq<char>,
    res: Option<&str>,
)
    requires
        call_ensures(extension_of, (path,), res),
        !ext.contains('.'),
    ensures
        stem.len() > 0 && is_named_in(path@, directory, stem + seq!['.'] + ext) ==> (
        res matches Some(found) && found@ == ext),
        is_named_in(path@, directory, seq!['.'] + ext) ==> res is None,
        is_named_in(path@, directory, ext) ==> res is None,
{
    let dotted = stem + seq!['.'] + ext;
    assert forall|k: int| stem.len() < k < dotted.len() implies #[trigger] dotted[k] != '.' by {
        assert(ext.contains(ext[k - stem.len() - 1]));
    }
    last_index_at(dotted, '.', stem.len() as int);
    assert(after_last(dotted, '.') =~= ext);
    let hidden = seq!['.'] + ext;
    assert forall|k: int| 0 < k < hidden.len() implies #[trigger] hidden[k] != '.' by {
        assert(ext.contains(ext[k - 1]));
    }
    last_index_at(hidden, '.', 0);
    last_index_is_last(ext, '.');
    if last_index(ext, '.') >= 0 {
        assert(ext.contains(ext[last_index(ext, '.')]));
    }
    if stem.len() > 0 && is_named_in(path@, directory, dotted) {
        lemma_extension(path@, directory, dotted);
    }
    if is_named_in(path@, directory, hidden) {
        lemma_extension(path@, directory, hidden);
    }
    if is_named_in(path@, directory, ext) {
        lemma_extension(path@, directory, ext);
    }
}

} // verus!
