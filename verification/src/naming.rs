use vstd::prelude::*;

verus! {

/// The artist's image subdirectory name: the artist's name with every
/// space replaced by an underscore.
pub open spec fn underscore_name_spec(s: Seq<char>) -> Seq<char> {
    s.map(
        |_i: int, c: char|
            if c == ' ' {
                '_'
            } else {
                c
            },
    )
}

/// Which derived raster a variant is: the verbatim copy, the bounded
/// cropped rendition, or the thumbnail.
#[derive(Debug, Clone, Copy, PartialEq, Eq, Structural)]
pub enum Role {
    Full,
    Cropped,
    Thumbnail,
}

pub open spec fn variant_file_name_spec(role: Role) -> Seq<char> {
    match role {
        Role::Full => "full.jpg"@,
        Role::Cropped => "cropped.jpg"@,
        Role::Thumbnail => "thumbnail.jpg"@,
    }
}

/// Storage path of one variant relative to the destination image root:
/// the owning group's identifier namespaces all three variant files.
pub open spec fn variant_rel_path_spec(id: Seq<char>, role: Role) -> Seq<char> {
    id + "/"@ + variant_file_name_spec(role)
}

pub open spec fn joined_path_spec(root: Seq<char>, rel: Seq<char>) -> Seq<char> {
    root + "/"@ + rel
}

/// Derive the artist's image subdirectory name from the artist's name.
pub fn image_dir_name(name: &str) -> (r: String)
    ensures
        r@ == underscore_name_spec(name@),
{
    let n = name.unicode_len();
    let mut out = String::new();
    let mut i: usize = 0;
    while i < n
        invariant
            0 <= i <= n,
            n == name@.len(),
            out@ == underscore_name_spec(name@.take(i as int)),
        decreases n - i,
    {
        let c = name.get_char(i);
        if c == ' ' {
            out.append("_");
        } else {
            out.append(name.substring_char(i, i + 1));
        }
        proof {
            assert(underscore_name_spec(name@.take(i + 1)) =~= underscore_name_spec(
                name@.take(i as int),
            ) + underscore_name_spec(name@.subrange(i as int, i + 1)));
            assert(underscore_name_spec(name@.subrange(i as int, i + 1)) =~= seq![
                if name@[i as int] == ' ' {
                    '_'
                } else {
                    name@[i as int]
                },
            ]);
            if c == ' ' {
                reveal_strlit("_");
                assert("_"@ =~= seq!['_']);
                assert(out@ =~= underscore_name_spec(name@.take(i + 1)));
            } else {
                assert(name@.subrange(i as int, i + 1) =~= seq![name@[i as int]]);
                assert(out@ =~= underscore_name_spec(name@.take(i + 1)));
            }
        }
        i = i + 1;
    }
    proof {
        assert(name@.take(n as int) =~= name@);
    }
    out
}

pub fn variant_file_name(role: Role) -> (r: String)
    ensures
        r@ == variant_file_name_spec(role),
{
    match role {
        Role::Full => String::from_str("full.jpg"),
        Role::Cropped => String::from_str("cropped.jpg"),
        Role::Thumbnail => String::from_str("thumbnail.jpg"),
    }
}

/// Storage path of one variant file relative to the destination image root.
pub fn variant_rel_path(id: &str, role: Role) -> (r: String)
    ensures
        r@ == variant_rel_path_spec(id@, role),
{
    let name = variant_file_name(role);
    id.to_owned().concat("/").concat(name.as_str())
}

/// Join a root directory and a relative path with a single separator.
pub fn joined_path(root: &str, rel: &str) -> (r: String)
    ensures
        r@ == joined_path_spec(root@, rel@),
{
    root.to_owned().concat("/").concat(rel)
}

} // verus!
