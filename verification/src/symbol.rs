//! Resolving the next definition of a symbol, once, and reporting when there
//! is none.
use vstd::prelude::*;
use vstd::string::*;
use vstd::layout::{align_of, size_of};
use vstd::utf8::{decode_utf8, valid_utf8};

verus! {

/// The platforms that the resolver tells apart.
#[derive(Debug, Clone, Copy, PartialEq, Eq)]
pub enum Platform {
    Linux,
    MacOs,
    Other,
}

/// A failed resolution: the name that was asked for and, where the loader's
/// error channel could be read, what it said.
#[derive(Debug, PartialEq, Eq)]
pub struct SymbolResolutionError {
    /// The name, as the bytes of a C string without its terminator.
    pub name: Vec<u8>,
    pub message: Option<String>,
}

pub ghost struct SymbolResolutionErrorView {
    pub name: Seq<u8>,
    pub message: Option<Seq<char>>,
}

impl DeepView for SymbolResolutionError {
    type V = SymbolResolutionErrorView;

    open spec fn deep_view(&self) -> SymbolResolutionErrorView {
        SymbolResolutionErrorView { name: self.name@, message: self.message.deep_view() }
    }
}

/// Whether `T` is as large as a pointer and aligned like one.
pub open spec fn has_pointer_layout<T>() -> bool {
    size_of::<T>() == size_of::<usize>() && align_of::<T>() == align_of::<usize>()
}

/// Whether `T` is as large as a pointer and aligned like one.
pub fn is_pointer_sized<T>() -> (fits: bool)
    ensures
        fits == has_pointer_layout::<T>(),
{
    core::mem::size_of::<T>() == core::mem::size_of::<usize>() && core::mem::align_of::<T>()
        == core::mem::align_of::<usize>()
}

/// States that `T` can stand for the address of a symbol: it is as large as
/// a pointer and aligned like one.
pub fn next_symbol_check_types<T>()
    requires
        has_pointer_layout::<T>(),
{
}

/// Whether the loader's error channel may be read on `platform` without
/// further synchronisation: on Linux and on macOS.
pub fn dlerror_is_safe(platform: Platform) -> (safe: bool)
    ensures
        safe == (platform is Linux || platform is MacOs),
{
    match platform {
        Platform::Linux => true,
        Platform::MacOs => true,
        Platform::Other => false,
    }
}

/// What the loader's error, read as bytes, says: its text where the bytes
/// are UTF-8, nothing otherwise.
pub open spec fn error_text(error: Option<Seq<u8>>) -> Option<Seq<char>> {
    match error {
        Some(bytes) => if valid_utf8(bytes) {
            Some(decode_utf8(bytes))
        } else {
            None
        },
        None => None,
    }
}

/// The outcome of a lookup that gave `address` while the error channel,
/// where it was read, held `error`. The lookup has failed if the address is
/// null or if the channel held an error; the failure carries the name and
/// what the channel said. Otherwise the address is the symbol.
pub open spec fn resolution(name: Seq<u8>, address: usize, error: Option<Seq<u8>>) -> Result<
    usize,
    SymbolResolutionErrorView,
> {
    if address == 0 || error is Some {
        Err(SymbolResolutionErrorView { name, message: error_text(error) })
    } else {
        Ok(address)
    }
}

/// The bytes that were read from the error channel, if any.
pub open spec fn bytes_read(error: Option<Vec<u8>>) -> Option<Seq<u8>> {
    match error {
        Some(bytes) => Some(bytes@),
        None => None,
    }
}

/// Reads bytes as UTF-8 text.
///
/// Calls `String::from_utf8`, which gives the text exactly if the bytes are
/// valid UTF-8.
#[verifier::external_body]
fn text_from_utf8(bytes: Vec<u8>) -> (text: Option<String>)
    ensures
        text is Some <==> valid_utf8(bytes@),
        text matches Some(t) ==> t@ == decode_utf8(bytes@),
{
    match String::from_utf8(bytes) {
        Ok(text) => Some(text),
        Err(_) => None,
    }
}

/// Appends one character to a text.
///
/// Calls `String::push`.
#[verifier::external_body]
fn push_char(text: &mut String, c: char)
    ensures
        final(text)@ == old(text)@.push(c),
{
    text.push(c)
}

/// Judges a lookup of the next definition of `name`.
///
/// `address` is what the loader gave for the symbol. `error` is what its
/// error channel held after the lookup: `None` where the channel was not
/// read or held nothing.
pub fn next_symbol(name: Vec<u8>, address: usize, error: Option<Vec<u8>>) -> (result: Result<
    usize,
    SymbolResolutionError,
>)
    ensures
        match result {
            Ok(symbol) => resolution(name@, address, bytes_read(error)) == Ok::<
                _,
                SymbolResolutionErrorView,
            >(symbol),
            Err(failure) => resolution(name@, address, bytes_read(error)) == Err::<usize, _>(
                failure.deep_view(),
            ),
        },
{
    match error {
        Some(bytes) => Err(SymbolResolutionError { name, message: text_from_utf8(bytes) }),
        None => {
            if address == 0 {
                Err(SymbolResolutionError { name, message: None })
            } else {
                Ok(address)
            }
        },
    }
}

/// A lookup succeeds exactly if the address is not null and the error
/// channel held nothing, and a failure names the symbol that was asked for.
pub proof fn lemma_lookup_fails_on_null_or_error(
    name: Seq<u8>,
    address: usize,
    error: Option<Seq<u8>>,
)
    ensures
        resolution(name, address, error) is Ok <==> address != 0 && error is None,
        resolution(name, address, error) matches Ok(symbol) ==> symbol == address,
        resolution(name, address, error) matches Err(failure) ==> failure.name == name,
{
}

/// The digits of the hexadecimal notation.
pub const HEX_DIGITS: &'static str = "0123456789abcdef";

/// One byte as it is shown in a message: printable ASCII as it is, but for
/// the quotes and the backslash, which get a backslash before them; tab,
/// carriage return and line feed as `\t`, `\r` and `\n`; every other byte as
/// `\x` and two hexadecimal digits.
pub open spec fn escaped_byte(byte: u8) -> Seq<char> {
    if byte == 0x09 {
        seq!['\\', 't']
    } else if byte == 0x0d {
        seq!['\\', 'r']
    } else if byte == 0x0a {
        seq!['\\', 'n']
    } else if byte == 0x27 {
        seq!['\\', '\'']
    } else if byte == 0x22 {
        seq!['\\', '"']
    } else if byte == 0x5c {
        seq!['\\', '\\']
    } else if 0x20 <= byte <= 0x7e {
        seq![byte as char]
    } else {
        seq!['\\', 'x', HEX_DIGITS@[(byte / 16) as int], HEX_DIGITS@[(byte % 16) as int]]
    }
}

/// A sequence of bytes as it is shown in a message.
pub open spec fn escaped(bytes: Seq<u8>) -> Seq<char>
    decreases bytes.len(),
{
    if bytes.len() == 0 {
        Seq::empty()
    } else {
        escaped(bytes.drop_last()) + escaped_byte(bytes.last())
    }
}

impl SymbolResolutionErrorView {
    /// The failure as a sentence: the name in quotes and, where there is
    /// one, the loader's message after a colon.
    pub open spec fn text(self) -> Seq<char> {
        let head = "failed to resolve symbol \""@ + escaped(self.name) + "\""@;
        match self.message {
            Some(message) => head + ": "@ + message,
            None => head,
        }
    }
}

/// Appends one byte as it is shown in a message.
fn push_escaped_byte(text: &mut String, byte: u8)
    ensures
        final(text)@ == old(text)@ + escaped_byte(byte),
{
    if byte == 0x09 {
        push_char(text, '\\');
        push_char(text, 't');
    } else if byte == 0x0d {
        push_char(text, '\\');
        push_char(text, 'r');
    } else if byte == 0x0a {
        push_char(text, '\\');
        push_char(text, 'n');
    } else if byte == 0x27 {
        push_char(text, '\\');
        push_char(text, '\'');
    } else if byte == 0x22 {
        push_char(text, '\\');
        push_char(text, '"');
    } else if byte == 0x5c {
        push_char(text, '\\');
        push_char(text, '\\');
    } else if 0x20 <= byte && byte <= 0x7e {
        push_char(text, byte as char);
    } else {
        proof {
            reveal_strlit("0123456789abcdef");
        }
        let high = HEX_DIGITS.get_char((byte / 16) as usize);
        let low = HEX_DIGITS.get_char((byte % 16) as usize);
        push_char(text, '\\');
        push_char(text, 'x');
        push_char(text, high);
        push_char(text, low);
    }
}

impl SymbolResolutionError {
    /// The failure as a sentence for the user.
    pub fn to_text(&self) -> (text: String)
        ensures
            text@ == self.deep_view().text(),
    {
        let mut text = "failed to resolve symbol \"".to_owned();
        let ghost head = text@;
        let mut i: usize = 0;
        while i < self.name.len()
            invariant
                i <= self.name.len(),
                text@ == head + escaped(self.name@.take(i as int)),
            decreases self.name.len() - i,
        {
            push_escaped_byte(&mut text, self.name[i]);
            proof {
                let next = self.name@.take(i + 1);
                assert(next.drop_last() =~= self.name@.take(i as int));
            }
            i = i + 1;
        }
        assert(self.name@.take(self.name.len() as int) =~= self.name@);
        text.append("\"");
        match &self.message {
            Some(message) => {
                text.append(": ");
                text.append(message.as_str());
            },
            None => {},
        }
        text
    }
}

} // verus!
