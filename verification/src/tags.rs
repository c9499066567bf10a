//! The tags of the four kinds of resource are the tags of their names.

use vstd::prelude::*;
use vstd::string::StringSliceAdditionalSpecFns;
use vstd::utf8::{encode_utf8, is_ascii_chars, is_ascii_chars_encode_utf8};
use crate::auth::USER_TAG;
use crate::books::BOOK_TAG;
use crate::id::le_value;
use crate::lendings::LENDING_TAG;
use crate::libraries::LIBRARY_TAG;

verus! {

/// The tag of a name of four ASCII characters.
proof fn lemma_tag_of_four(name: Seq<char>)
    requires
        name.len() == 4,
        is_ascii_chars(name),
    ensures
        le_value(encode_utf8(name)) == name[0] as nat + 0x100 * (name[1] as nat) + 0x1_0000 * (
        name[2] as nat) + 0x100_0000 * (name[3] as nat),
{
    is_ascii_chars_encode_utf8(name);
    let b = encode_utf8(name);
    assert(b.len() == 4);
    assert(b[0] == name[0] as u8 && b[1] == name[1] as u8 && b[2] == name[2] as u8 && b[3]
        == name[3] as u8);
    let b1 = b.drop_first();
    let b2 = b1.drop_first();
    let b3 = b2.drop_first();
    let b4 = b3.drop_first();
    assert(b4.len() == 0);
    assert(le_value(b4) == 0);
    assert(le_value(b3) == b3[0] as nat + 256 * le_value(b4));
    assert(le_value(b2) == b2[0] as nat + 256 * le_value(b3));
    assert(le_value(b1) == b1[0] as nat + 256 * le_value(b2));
    assert(le_value(b) == b[0] as nat + 256 * le_value(b1));
}

/// The tag of a name of seven ASCII characters.
proof fn lemma_tag_of_seven(name: Seq<char>)
    requires
        name.len() == 7,
        is_ascii_chars(name),
    ensures
        le_value(encode_utf8(name)) == name[0] as nat + 0x100 * (name[1] as nat) + 0x1_0000 * (
        name[2] as nat) + 0x100_0000 * (name[3] as nat) + 0x1_0000_0000 * (name[4] as nat)
            + 0x100_0000_0000 * (name[5] as nat) + 0x1_0000_0000_0000 * (name[6] as nat),
{
    is_ascii_chars_encode_utf8(name);
    let b = encode_utf8(name);
    assert(b.len() == 7);
    assert(b[0] == name[0] as u8 && b[1] == name[1] as u8 && b[2] == name[2] as u8 && b[3]
        == name[3] as u8 && b[4] == name[4] as u8 && b[5] == name[5] as u8 && b[6]
        == name[6] as u8);
    let b1 = b.drop_first();
    let b2 = b1.drop_first();
    let b3 = b2.drop_first();
    let b4 = b3.drop_first();
    let b5 = b4.drop_first();
    let b6 = b5.drop_first();
    let b7 = b6.drop_first();
    assert(b7.len() == 0);
    assert(le_value(b7) == 0);
    assert(le_value(b6) == b6[0] as nat + 256 * le_value(b7));
    assert(le_value(b5) == b5[0] as nat + 256 * le_value(b6));
    assert(le_value(b4) == b4[0] as nat + 256 * le_value(b5));
    assert(le_value(b3) == b3[0] as nat + 256 * le_value(b4));
    assert(le_value(b2) == b2[0] as nat + 256 * le_value(b3));
    assert(le_value(b1) == b1[0] as nat + 256 * le_value(b2));
    assert(le_value(b) == b[0] as nat + 256 * le_value(b1));
}

/// Each tag is what `tag` makes of the name of its kind, and no two kinds
/// share a tag.
pub proof fn lemma_resource_tags()
    ensures
        le_value("user".spec_bytes()) == USER_TAG,
        le_value("book".spec_bytes()) == BOOK_TAG,
        le_value("library".spec_bytes()) == LIBRARY_TAG,
        le_value("lending".spec_bytes()) == LENDING_TAG,
        USER_TAG != BOOK_TAG,
        USER_TAG != LIBRARY_TAG,
        USER_TAG != LENDING_TAG,
        BOOK_TAG != LIBRARY_TAG,
        BOOK_TAG != LENDING_TAG,
        LIBRARY_TAG != LENDING_TAG,
{
    reveal_strlit("user");
    reveal_strlit("book");
    reveal_strlit("library");
    reveal_strlit("lending");
    lemma_tag_of_four("user"@);
    lemma_tag_of_four("book"@);
    lemma_tag_of_seven("library"@);
    lemma_tag_of_seven("lending"@);
}

} // verus!
