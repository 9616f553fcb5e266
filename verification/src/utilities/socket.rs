use crate::utilities::encoding::bytes_of;
use vstd::prelude::*;
use vstd::utf8::encode_utf8;

verus! {

/// The number that the standard library reads out of a text in base
/// eight, or nothing where it reads none out of it.
pub uninterp spec fn octal_value(text: Seq<char>) -> Option<u32>;

/// Calls `u32::from_str_radix` with the radix eight. The contract only
/// names the result.
#[verifier::external_body]
fn parse_octal(text: &str) -> (result: Option<u32>)
    ensures
        result == octal_value(text@),
{
    match u32::from_str_radix(text, 8) {
        Ok(value) => Some(value),
        Err(_) => None,
    }
}

/// The permissions of the socket's file where none that can be read are
/// configured: everyone may read and write.
pub open spec fn default_mode() -> u32 {
    0o666u32
}

/// The permissions that a text of the configuration stands for: the
/// number that it is in base eight, or else the default.
pub open spec fn mode_of(permissions: Seq<char>) -> u32 {
    match octal_value(permissions) {
        Some(mode) => mode,
        None => default_mode(),
    }
}

/// Whether an address, given in bytes, names a socket that has no file:
/// it starts with `@`, or with a zero byte.
pub open spec fn is_abstract(address: Seq<u8>) -> bool {
    address.len() > 0 && (address[0] == 0x40u8 || address[0] == 0u8)
}

/// The address to bind, given the configured one in bytes: a leading `@`,
/// which is how an address without a file is written, becomes the zero
/// byte that the system wants; every other address stays as it is.
pub open spec fn formatted(address: Seq<u8>) -> Seq<u8> {
    if address.len() > 0 && address[0] == 0x40u8 {
        seq![0u8] + address.skip(1)
    } else {
        address
    }
}

/// The mathematical model of [`Listen`].
pub struct ListenView {
    pub address: Seq<u8>,
    pub prepare_file: bool,
    pub permissions: Option<u32>,
}

/// How to listen on a socket: the address to bind; whether a file is to
/// be prepared for it first, by removing what is there under the address
/// and creating the directory above it; and the permissions to give the
/// file once the socket is bound, where it has a file.
#[derive(Debug, PartialEq)]
pub struct Listen {
    pub address: Vec<u8>,
    pub prepare_file: bool,
    pub permissions: Option<u32>,
}

impl View for Listen {
    type V = ListenView;

    open spec fn view(&self) -> ListenView {
        ListenView {
            address: self.address@,
            prepare_file: self.prepare_file,
            permissions: self.permissions,
        }
    }
}

/// The socket that the service listens on, as far as its permissions go.
#[derive(Debug, Clone, Copy, PartialEq, Eq, Structural)]
pub struct Socket {
    pub permissions: u32,
}

impl Default for Socket {
    fn default() -> (result: Self)
        ensures
            result.permissions == mode_of("666"@),
    {
        Socket::new("666")
    }
}

impl Socket {
    /// How to listen at an address, given in bytes, with the permissions `mode`.
    pub open spec fn plan(mode: u32, address: Seq<u8>) -> ListenView {
        ListenView {
            address: formatted(address),
            prepare_file: !is_abstract(address),
            permissions: if is_abstract(address) {
                None
            } else {
                Some(mode)
            },
        }
    }

    /// Makes the socket with the permissions that `permissions` stands
    /// for: see [`mode_of`].
    pub fn new(permissions: &str) -> (result: Self)
        ensures
            result.permissions == mode_of(permissions@),
    {
        Socket {
            permissions: match parse_octal(permissions) {
                Some(mode) => mode,
                None => 0o666,
            },
        }
    }

    /// Makes the socket with the permissions that `permissions` stands for.
    pub fn with_permissions(permissions: &str) -> (result: Self)
        ensures
            result.permissions == mode_of(permissions@),
    {
        Self::new(permissions)
    }

    /// Returns the address to bind for the configured `path`: see [`formatted`].
    pub fn format_path(path: &str) -> (result: Vec<u8>)
        ensures
            result@ == formatted(encode_utf8(path@)),
    {
        let bytes = bytes_of(path);
        if bytes.len() > 0 && bytes[0] == 0x40 {
            let mut address: Vec<u8> = Vec::new();
            address.push(0);
            let mut i: usize = 1;
            while i < bytes.len()
                invariant
                    1 <= i <= bytes.len(),
                    address@ == seq![0u8] + bytes@.subrange(1, i as int),
                decreases bytes.len() - i,
            {
                address.push(bytes[i]);
                proof {
                    assert(bytes@.subrange(1, i + 1) =~= bytes@.subrange(1, i as int).push(
                        bytes@[i as int],
                    ));
                    assert(address@ =~= seq![0u8] + bytes@.subrange(1, i + 1));
                }
                i = i + 1;
            }
            proof {
                assert(bytes@.subrange(1, i as int) =~= bytes@.skip(1));
            }
            address
        } else {
            bytes
        }
    }

    /// Says how to listen at the configured `path`: see [`Socket::plan`].
    /// A socket without a file needs no file prepared and gets no
    /// permissions; every other gets those of this socket.
    pub fn listen(&self, path: &str) -> (result: Listen)
        ensures
            result@ == Self::plan(self.permissions, encode_utf8(path@)),
    {
        let bytes = bytes_of(path);
        let without_file = bytes.len() > 0 && (bytes[0] == 0x40 || bytes[0] == 0);
        Listen {
            address: Self::format_path(path),
            prepare_file: !without_file,
            permissions: if without_file {
                None
            } else {
                Some(self.permissions)
            },
        }
    }
}

} // verus!
