//! Keys of cached images.

use vstd::bytes::*;
use vstd::prelude::*;
use vstd::string::*;
use vstd::utf8::*;

verus! {

/// Names one image: the chapter that it belongs to, its file name, and whether it is the
/// data-saver version.
pub struct ImageKey {
    chapter: String,
    image: String,
    saver: bool,
}

/// The archive that a version of an image belongs to.
pub open spec fn archive_of(saver: bool) -> Seq<char> {
    if saver {
        "data-saver"@
    } else {
        "data"@
    }
}

/// The bytes of a key in the database: the version, the length of the chapter, the chapter, the
/// file name.
pub open spec fn bkey(chapter: Seq<char>, image: Seq<char>, saver: bool) -> Seq<u8> {
    seq![if saver { 1u8 } else { 0u8 }]
        + spec_u64_to_le_bytes(encode_utf8(chapter).len() as u64)
        + encode_utf8(chapter)
        + encode_utf8(image)
}

impl ImageKey {
    /// The chapter, the file name, and whether it is the data-saver version.
    pub closed spec fn view(&self) -> (Seq<char>, Seq<char>, bool) {
        (self.chapter@, self.image@, self.saver)
    }

    /// A key of these parts.
    pub fn new(chapter: String, image: String, saver: bool) -> (key: Self)
        ensures
            key@ == (chapter@, image@, saver),
    {
        ImageKey { chapter, image, saver }
    }

    /// The archive that the image is in.
    pub fn archive_name(&self) -> (name: &'static str)
        ensures
            name@ == archive_of(self@.2),
    {
        if self.saver {
            "data-saver"
        } else {
            "data"
        }
    }

    /// The chapter.
    pub fn chapter(&self) -> (chapter: &str)
        ensures
            chapter@ == self@.0,
    {
        self.chapter.as_str()
    }

    /// The file name.
    pub fn image(&self) -> (image: &str)
        ensures
            image@ == self@.1,
    {
        self.image.as_str()
    }

    /// The bytes of the key in the database.
    pub fn as_bkey(&self) -> (bytes: Vec<u8>)
        ensures
            bytes@ == bkey(self@.0, self@.1, self@.2),
    {
        let chapter: &[u8] = self.chapter.as_str().as_bytes();
        let image: &[u8] = self.image.as_str().as_bytes();
        let mut bytes: Vec<u8> = Vec::new();
        bytes.push(
            if self.saver {
                1u8
            } else {
                0u8
            },
        );
        let mut len: Vec<u8> = u64_to_le_bytes(chapter.len() as u64);
        bytes.append(&mut len);
        bytes.extend_from_slice(chapter);
        bytes.extend_from_slice(image);
        proof {
            assert(bytes@ =~= bkey(self@.0, self@.1, self@.2));
        }
        bytes
    }
}

/// Different images have different keys in the database, whatever characters their names hold.
pub proof fn keys_are_distinct(
    chapter1: Seq<char>,
    image1: Seq<char>,
    saver1: bool,
    chapter2: Seq<char>,
    image2: Seq<char>,
    saver2: bool,
)
    requires
        encode_utf8(chapter1).len() <= u64::MAX,
        encode_utf8(chapter2).len() <= u64::MAX,
        bkey(chapter1, image1, saver1) == bkey(chapter2, image2, saver2),
    ensures
        chapter1 == chapter2,
        image1 == image2,
        saver1 == saver2,
{
    let c1 = encode_utf8(chapter1);
    let c2 = encode_utf8(chapter2);
    let i1 = encode_utf8(image1);
    let i2 = encode_utf8(image2);
    let b1 = bkey(chapter1, image1, saver1);
    let b2 = bkey(chapter2, image2, saver2);
    let l1 = spec_u64_to_le_bytes(c1.len() as u64);
    let l2 = spec_u64_to_le_bytes(c2.len() as u64);
    lemma_auto_spec_u64_to_from_le_bytes();
    assert(b1[0] == if saver1 { 1u8 } else { 0u8 });
    assert(b2[0] == if saver2 { 1u8 } else { 0u8 });
    assert(l1 =~= b1.subrange(1, 9));
    assert(l2 =~= b2.subrange(1, 9));
    assert(spec_u64_from_le_bytes(l1) == spec_u64_from_le_bytes(l2));
    assert(c1 =~= b1.subrange(9, 9 + c1.len() as int));
    assert(c2 =~= b2.subrange(9, 9 + c2.len() as int));
    assert(i1 =~= b1.subrange(9 + c1.len() as int, b1.len() as int));
    assert(i2 =~= b2.subrange(9 + c2.len() as int, b2.len() as int));
    crate::text::lemma_same_bytes_same_text(chapter1, chapter2);
    crate::text::lemma_same_bytes_same_text(image1, image2);
}

} // verus!
