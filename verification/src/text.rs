//! Text building: decimal numbers and the names derived from a pack name.

use vstd::prelude::*;
use vstd::string::*;

verus! {

/// The character of one decimal digit.
pub open spec fn digit_char(d: nat) -> char {
    if d == 0 {
        '0'
    } else if d == 1 {
        '1'
    } else if d == 2 {
        '2'
    } else if d == 3 {
        '3'
    } else if d == 4 {
        '4'
    } else if d == 5 {
        '5'
    } else if d == 6 {
        '6'
    } else if d == 7 {
        '7'
    } else if d == 8 {
        '8'
    } else {
        '9'
    }
}

/// The decimal notation of `n`, without sign or leading zeros.
pub open spec fn decimal(n: nat) -> Seq<char>
    decreases n,
{
    if n < 10 {
        seq![digit_char(n)]
    } else {
        decimal(n / 10).push(digit_char(n % 10))
    }
}

fn digit_str(d: u64) -> (s: &'static str)
    requires
        d < 10,
    ensures
        s@ == seq![digit_char(d as nat)],
{
    proof {
        reveal_strlit("0");
        reveal_strlit("1");
        reveal_strlit("2");
        reveal_strlit("3");
        reveal_strlit("4");
        reveal_strlit("5");
        reveal_strlit("6");
        reveal_strlit("7");
        reveal_strlit("8");
        reveal_strlit("9");
    }
    let s = if d == 0 {
        "0"
    } else if d == 1 {
        "1"
    } else if d == 2 {
        "2"
    } else if d == 3 {
        "3"
    } else if d == 4 {
        "4"
    } else if d == 5 {
        "5"
    } else if d == 6 {
        "6"
    } else if d == 7 {
        "7"
    } else if d == 8 {
        "8"
    } else {
        "9"
    };
    assert(s@ =~= seq![digit_char(d as nat)]);
    s
}

/// Appends the decimal notation of `n` to `out`.
pub fn push_decimal(out: &mut String, n: u64)
    ensures
        final(out)@ == old(out)@ + decimal(n as nat),
    decreases n,
{
    if n >= 10 {
        push_decimal(out, n / 10);
    }
    out.append(digit_str(n % 10));
    assert(final(out)@ =~= old(out)@ + decimal(n as nat));
}

/// The id of the effect that plays atlas `index` of the pack `name`.
pub open spec fn effect_id(name: Seq<char>, index: nat) -> Seq<char> {
    name + ":i_"@ + decimal(index)
}

/// The path by which a descriptor refers to the image of atlas `index`.
pub open spec fn texture_path(name: Seq<char>, index: nat) -> Seq<char> {
    "textures/frames/"@ + name + "_"@ + decimal(index) + ".png"@
}

/// The directory that receives the atlas images of the pack `name`.
pub open spec fn frames_directory(name: Seq<char>) -> Seq<char> {
    name + "/resource_pack/textures/frames"@
}

/// The file that receives the image of atlas `index`.
pub open spec fn atlas_file_name(directory: Seq<char>, name: Seq<char>, index: nat) -> Seq<char> {
    directory + "/"@ + name + "_"@ + decimal(index) + ".png"@
}

/// The decimal notation of a number has a digit, and two when the number
/// is above nine.
pub proof fn lemma_decimal_len(n: nat)
    ensures
        decimal(n).len() >= 1,
        n >= 10 ==> decimal(n).len() >= 2,
    decreases n,
{
    if n >= 10 {
        lemma_decimal_len(n / 10);
    }
}

/// The character is a decimal digit.
pub open spec fn is_digit(c: char) -> bool {
    exists|d: nat| d < 10 && c == #[trigger] digit_char(d)
}

/// The decimal notation of a number holds digits only.
pub proof fn lemma_decimal_digits(n: nat, i: int)
    requires
        0 <= i < decimal(n).len(),
    ensures
        is_digit(decimal(n)[i]),
    decreases n,
{
    if n < 10 {
        assert(decimal(n)[i] == digit_char(n));
    } else if i < decimal(n / 10).len() {
        lemma_decimal_digits(n / 10, i);
    } else {
        assert(decimal(n)[i] == digit_char(n % 10));
    }
}

/// Two numbers with the same decimal notation are the same number.
pub proof fn lemma_decimal_injective(a: nat, b: nat)
    requires
        decimal(a) == decimal(b),
    ensures
        a == b,
    decreases a,
{
    lemma_decimal_len(a);
    lemma_decimal_len(b);
    if a < 10 && b < 10 {
        assert(decimal(a)[0] == digit_char(a));
        assert(decimal(b)[0] == digit_char(b));
    } else if a < 10 {
        assert(decimal(a).len() == 1);
    } else if b < 10 {
        assert(decimal(b).len() == 1);
    } else {
        assert(decimal(a).drop_last() =~= decimal(a / 10));
        assert(decimal(b).drop_last() =~= decimal(b / 10));
        assert(decimal(a).last() == digit_char(a % 10));
        assert(decimal(b).last() == digit_char(b % 10));
        lemma_decimal_injective(a / 10, b / 10);
        assert(a % 10 == b % 10);
    }
}

/// The atlases of a pack have different effect ids.
pub proof fn lemma_effect_ids_differ(name: Seq<char>, index: nat, other: nat)
    requires
        index != other,
    ensures
        effect_id(name, index) != effect_id(name, other),
{
    let prefix = name + ":i_"@;
    if effect_id(name, index) == effect_id(name, other) {
        assert(decimal(index) =~= effect_id(name, index).subrange(
            prefix.len() as int,
            effect_id(name, index).len() as int,
        ));
        assert(decimal(other) =~= effect_id(name, other).subrange(
            prefix.len() as int,
            effect_id(name, other).len() as int,
        ));
        lemma_decimal_injective(index, other);
    }
}

/// The atlases of a pack go to different files.
pub proof fn lemma_atlas_files_differ(
    directory: Seq<char>,
    name: Seq<char>,
    index: nat,
    other: nat,
)
    requires
        index != other,
    ensures
        atlas_file_name(directory, name, index) != atlas_file_name(directory, name, other),
{
    let prefix = directory + "/"@ + name + "_"@;
    let file = atlas_file_name(directory, name, index);
    let other_file = atlas_file_name(directory, name, other);
    if file == other_file {
        assert(file.len() == prefix.len() + decimal(index).len() + ".png"@.len());
        assert(other_file.len() == prefix.len() + decimal(other).len() + ".png"@.len());
        assert(decimal(index) =~= file.subrange(
            prefix.len() as int,
            (prefix.len() + decimal(index).len()) as int,
        ));
        assert(decimal(other) =~= other_file.subrange(
            prefix.len() as int,
            (prefix.len() + decimal(other).len()) as int,
        ));
        lemma_decimal_injective(index, other);
    }
}

/// Builds the id of the effect that plays atlas `index`.
pub fn make_effect_id(name: &str, index: u32) -> (id: String)
    ensures
        id@ == effect_id(name@, index as nat),
{
    let mut id = String::from_str(name);
    id.append(":i_");
    push_decimal(&mut id, index as u64);
    id
}

/// Builds the path by which a descriptor refers to the image of an atlas.
pub fn make_texture_path(name: &str, index: u32) -> (path: String)
    ensures
        path@ == texture_path(name@, index as nat),
{
    let mut path = String::from_str("textures/frames/");
    path.append(name);
    path.append("_");
    push_decimal(&mut path, index as u64);
    path.append(".png");
    path
}

/// Builds the name of the directory that receives the atlas images.
pub fn make_frames_directory(name: &str) -> (directory: String)
    ensures
        directory@ == frames_directory(name@),
{
    let mut directory = String::from_str(name);
    directory.append("/resource_pack/textures/frames");
    directory
}

/// Builds the name of the file that receives the image of an atlas.
pub fn make_atlas_file_name(directory: &str, name: &str, index: u32) -> (file: String)
    ensures
        file@ == atlas_file_name(directory@, name@, index as nat),
{
    let mut file = String::from_str(directory);
    file.append("/");
    file.append(name);
    file.append("_");
    push_decimal(&mut file, index as u64);
    file.append(".png");
    file
}

} // verus!
