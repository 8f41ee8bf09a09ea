use vstd::prelude::*;
use vstd::slice::slice_subrange;
use vstd::utf8::{decode_utf8, valid_utf8};
use crate::memory::address_space::AddressSpace;
use crate::memory::{bytes_to_word, word_to_bytes};

verus! {

/// The number of bytes of the address range that the memory map hands to the
/// cartridge: no image is shorter.
pub const ROM_REGION_SIZE: usize = 0x8000;

/// Where the title starts in an image.
pub const TITLE_START: usize = 0x134;

/// Where the title ends in an image: the first byte behind it.
pub const TITLE_END: usize = 0x143;

/// Whether a character is whitespace to `char::is_whitespace`, that is,
/// whether Unicode counts it as `White_Space`.
pub uninterp spec fn whitespace(c: char) -> bool;

/// `text` without the whitespace at its end.
pub open spec fn trim_end_of(text: Seq<char>) -> Seq<char>
    decreases text.len(),
{
    if text.len() > 0 && whitespace(text.last()) {
        trim_end_of(text.drop_last())
    } else {
        text
    }
}

/// The bytes of an image that hold the title.
pub open spec fn title_bytes(image: Seq<u8>) -> Seq<u8>
    recommends
        image.len() >= TITLE_END,
{
    image.subrange(TITLE_START as int, TITLE_END as int)
}

/// The title of an image: the text that its title bytes encode, without the
/// whitespace at its end. An image that is too short to hold a title, or
/// whose title bytes are no UTF-8, has none.
pub open spec fn title_of(image: Seq<u8>) -> Option<Seq<char>> {
    if image.len() >= TITLE_END && valid_utf8(title_bytes(image)) {
        Some(trim_end_of(decode_utf8(title_bytes(image))))
    } else {
        None
    }
}

/// `core::str::from_utf8`, with the error dropped: the text that `bytes`
/// encode, where they are well-formed UTF-8, and nothing where they are not.
/// That the function accepts exactly the well-formed sequences and decodes
/// them as UTF-8 is taken on trust.
#[verifier::external_body]
fn decode_text<'a>(bytes: &'a [u8]) -> (text: Option<&'a str>)
    ensures
        text is Some <==> valid_utf8(bytes@),
        text is Some ==> text->Some_0@ == decode_utf8(bytes@),
{
    core::str::from_utf8(bytes).ok()
}

/// `str::trim_end`: `text` without its trailing whitespace. That the
/// function removes the longest run of `White_Space` characters at the end,
/// and nothing else, is taken on trust.
#[verifier::external_body]
fn trim_trailing<'a>(text: &'a str) -> (trimmed: &'a str)
    ensures
        trimmed@.len() <= text@.len(),
        trimmed@ == text@.subrange(0, trimmed@.len() as int),
        forall|i: int| trimmed@.len() <= i < text@.len() ==> whitespace(#[trigger] text@[i]),
        trimmed@.len() > 0 ==> !whitespace(trimmed@.last()),
{
    text.trim_end()
}

/// A start of `text` that ends in no whitespace, and behind which `text`
/// holds whitespace only, is `text` without the whitespace at its end.
pub proof fn lemma_trim_end_of(text: Seq<char>, trimmed: Seq<char>)
    requires
        trimmed.len() <= text.len(),
        trimmed == text.subrange(0, trimmed.len() as int),
        forall|i: int| trimmed.len() <= i < text.len() ==> whitespace(#[trigger] text[i]),
        trimmed.len() > 0 ==> !whitespace(trimmed.last()),
    ensures
        trimmed == trim_end_of(text),
    decreases text.len(),
{
    if trimmed.len() == text.len() {
        assert(trimmed =~= text);
    } else {
        assert(whitespace(text[text.len() - 1]));
        assert(trimmed =~= text.drop_last().subrange(0, trimmed.len() as int));
        lemma_trim_end_of(text.drop_last(), trimmed);
    }
}

/// The title of an image, if it has one.
pub fn rom_title<'a>(image: &'a [u8]) -> (title: Option<&'a str>)
    ensures
        title is Some <==> title_of(image@) is Some,
        title is Some ==> title->Some_0@ == title_of(image@)->Some_0,
{
    if image.len() < TITLE_END {
        return None;
    }
    let raw = slice_subrange(image, TITLE_START, TITLE_END);
    match decode_text(raw) {
        Some(text) => {
            let trimmed = trim_trailing(text);
            proof {
                lemma_trim_end_of(text@, trimmed@);
            }
            Some(trimmed)
        },
        None => None,
    }
}

/// Why an image was not accepted as a cartridge.
#[derive(Debug, Clone, Copy, PartialEq, Eq, Structural)]
pub enum RomError {
    /// The image holds `len` bytes and so does not fill the cartridge's
    /// address range.
    Truncated { len: usize },
}

/// A cartridge: an image of at least `ROM_REGION_SIZE` bytes, whose length
/// never changes.
pub struct Cartridge {
    data: Vec<u8>,
}

impl View for Cartridge {
    type V = Seq<u8>;

    closed spec fn view(&self) -> Seq<u8> {
        self.data@
    }
}

impl Cartridge {
    /// Every cartridge fills the address range that the memory map hands to it.
    #[verifier::type_invariant]
    pub open spec fn filled(&self) -> bool {
        self@.len() >= ROM_REGION_SIZE
    }

    /// Makes a cartridge of an image, or says that the image is too short.
    pub fn new(data: Vec<u8>) -> (cartridge: Result<Self, RomError>)
        ensures
            data@.len() >= ROM_REGION_SIZE ==> cartridge is Ok && cartridge->Ok_0@ == data@,
            data@.len() < ROM_REGION_SIZE ==> cartridge == Err::<Self, RomError>(
                RomError::Truncated { len: data.len() },
            ),
    {
        let len: usize = data.len();
        if len < ROM_REGION_SIZE {
            Err(RomError::Truncated { len })
        } else {
            Ok(Self { data })
        }
    }

    /// The title that the image carries, if its title bytes are text.
    pub fn get_rom_title(&self) -> (title: Option<&str>)
        ensures
            title is Some <==> valid_utf8(title_bytes(self@)),
            title is Some ==> title->Some_0@ == trim_end_of(decode_utf8(title_bytes(self@))),
    {
        proof {
            use_type_invariant(self);
        }
        rom_title(self.data.as_slice())
    }

    /// The number of bytes of the image.
    pub fn len(&self) -> (len: usize)
        ensures
            len == self@.len(),
            len >= ROM_REGION_SIZE,
    {
        proof {
            use_type_invariant(self);
        }
        self.data.len()
    }
}

impl AddressSpace for Cartridge {
    open spec fn contents(&self) -> Seq<u8> {
        self@
    }

    /// A cartridge answers for the addresses inside its image.
    open spec fn covers(contents: Seq<u8>, address: u16) -> bool {
        (address as int) < contents.len()
    }

    open spec fn read(contents: Seq<u8>, address: u16) -> u8 {
        contents[address as int]
    }

    open spec fn write(contents: Seq<u8>, address: u16, value: u8) -> Seq<u8> {
        contents.update(address as int, value)
    }

    fn get(&self, address: u16) -> (value: u8) {
        self.data[address as usize]
    }

    fn set(&mut self, address: u16, value: u8) {
        proof {
            use_type_invariant(&*self);
        }
        self.data[address as usize] = value;
    }

    fn get_word(&self, address: u16) -> (value: u16) {
        let l: u8 = self.get(address);
        let h: u8 = self.get(address.wrapping_add(1));
        bytes_to_word(h, l)
    }

    fn set_word(&mut self, address: u16, value: u16) {
        let (h, l) = word_to_bytes(value);
        self.set(address, l);
        self.set(address.wrapping_add(1), h);
    }
}

} // verus!
