//! The client side of SOCKS5: what is sent, and what the answers mean.
use vstd::prelude::*;
use vstd::string::{StringExecFns, StringSliceAdditionalSpecFns};

use crate::ip::IpAddress;
use crate::text::{decimal, owned, push_decimal};
use crate::wire::{
    be16_bytes, be_digits, be_value, lemma_be_digits_len, lemma_be_value_of_digits, push_all, push_be16,
    the_first_byte_counts_most,
};

verus! {

/// Why a proxy could not be used.
#[derive(Debug, Clone, Copy, PartialEq, Eq, Structural)]
pub enum Socks5Error {
    /// The proxy does not speak SOCKS5.
    HandshakeFailed,
    /// The proxy wants another method than the one without credentials.
    NoAuthRefused(u8),
    /// The proxy wants a method that was not offered.
    MethodsRejected,
    /// The credentials were refused.
    AuthenticationFailed,
    /// The user name or the password has more than 255 bytes.
    CredentialTooLong(usize),
    /// The domain has more than 255 bytes.
    DomainTooLong(usize),
    /// The proxy could not connect, for the reason given by the number.
    ConnectFailed(u8),
    /// The proxy answers with an address of an unknown type.
    UnsupportedAddressType(u8),
}

impl Socks5Error {
    /// The error in words.
    pub open spec fn message_spec(self) -> Seq<char> {
        match self {
            Socks5Error::HandshakeFailed => "SOCKS5 handshake failed"@,
            Socks5Error::NoAuthRefused(m) =>
                "SOCKS5 handshake failed or authentication required (method="@ + decimal(m as nat)
                    + ")"@,
            Socks5Error::MethodsRejected => "SOCKS5 proxy rejected authentication methods"@,
            Socks5Error::AuthenticationFailed => "SOCKS5 authentication failed"@,
            Socks5Error::CredentialTooLong(n) => "user name or password too long for SOCKS5: "@
                + decimal(n as nat) + " bytes"@,
            Socks5Error::DomainTooLong(n) => "domain name too long for SOCKS5: "@ + decimal(
                n as nat,
            ) + " bytes"@,
            Socks5Error::ConnectFailed(rep) => "SOCKS5 CONNECT failed, REP="@ + decimal(
                rep as nat,
            ),
            Socks5Error::UnsupportedAddressType(t) => "unsupported SOCKS5 ATYP in response: "@
                + decimal(t as nat),
        }
    }

    /// The error in words.
    pub fn message(&self) -> (r: String)
        ensures
            r@ == self.message_spec(),
    {
        match self {
            Socks5Error::HandshakeFailed => owned("SOCKS5 handshake failed"),
            Socks5Error::NoAuthRefused(m) => {
                let mut r: String = owned(
                    "SOCKS5 handshake failed or authentication required (method=",
                );
                push_decimal(&mut r, *m as u64);
                r.append(")");
                r
            },
            Socks5Error::MethodsRejected => owned("SOCKS5 proxy rejected authentication methods"),
            Socks5Error::AuthenticationFailed => owned("SOCKS5 authentication failed"),
            Socks5Error::CredentialTooLong(n) => {
                let mut r: String = owned("user name or password too long for SOCKS5: ");
                push_decimal(&mut r, *n as u64);
                r.append(" bytes");
                r
            },
            Socks5Error::DomainTooLong(n) => {
                let mut r: String = owned("domain name too long for SOCKS5: ");
                push_decimal(&mut r, *n as u64);
                r.append(" bytes");
                r
            },
            Socks5Error::ConnectFailed(rep) => {
                let mut r: String = owned("SOCKS5 CONNECT failed, REP=");
                push_decimal(&mut r, *rep as u64);
                r
            },
            Socks5Error::UnsupportedAddressType(t) => {
                let mut r: String = owned("unsupported SOCKS5 ATYP in response: ");
                push_decimal(&mut r, *t as u64);
                r
            },
        }
    }
}

/// What is sent first: the methods that are offered.
pub open spec fn greeting_bytes(with_credentials: bool) -> Seq<u8> {
    if with_credentials {
        seq![5u8, 2, 0, 2]
    } else {
        seq![5u8, 1, 0]
    }
}

/// What is sent first: no credentials, or those and a user name with a
/// password.
pub fn greeting(with_credentials: bool) -> (r: Vec<u8>)
    ensures
        r@ == greeting_bytes(with_credentials),
{
    let mut r: Vec<u8> = Vec::new();
    r.push(5);
    if with_credentials {
        r.push(2);
        r.push(0);
        r.push(2);
    } else {
        r.push(1);
        r.push(0);
    }
    assert(r@ =~= greeting_bytes(with_credentials));
    r
}

/// What follows the proxy's choice of a method.
#[derive(Debug, Clone, Copy, PartialEq, Eq, Structural)]
pub enum AuthStep {
    /// The connection may be asked for.
    Ready,
    /// The credentials are sent.
    SendCredentials,
}

/// What follows the proxy's choice of a method.
pub open spec fn method_outcome(reply: Seq<u8>, with_credentials: bool) -> Result<
    AuthStep,
    Socks5Error,
> {
    if !with_credentials {
        if reply[0] == 5 && reply[1] == 0 {
            Ok(AuthStep::Ready)
        } else {
            Err(Socks5Error::NoAuthRefused(reply[1]))
        }
    } else if reply[0] != 5 {
        Err(Socks5Error::HandshakeFailed)
    } else if reply[1] == 2 {
        Ok(AuthStep::SendCredentials)
    } else if reply[1] == 0 {
        Ok(AuthStep::Ready)
    } else {
        Err(Socks5Error::MethodsRejected)
    }
}

/// Reads the proxy's choice of a method.
pub fn method_reply(reply: [u8; 2], with_credentials: bool) -> (r: Result<AuthStep, Socks5Error>)
    ensures
        r == method_outcome(reply@, with_credentials),
{
    if !with_credentials {
        if reply[0] != 5 || reply[1] != 0 {
            return Err(Socks5Error::NoAuthRefused(reply[1]));
        }
        return Ok(AuthStep::Ready);
    }
    if reply[0] != 5 {
        return Err(Socks5Error::HandshakeFailed);
    }
    if reply[1] == 2 {
        Ok(AuthStep::SendCredentials)
    } else if reply[1] != 0 {
        Err(Socks5Error::MethodsRejected)
    } else {
        Ok(AuthStep::Ready)
    }
}

/// A user name and a password as they are sent, each after its length.
pub open spec fn credentials_bytes(user: Seq<u8>, password: Seq<u8>) -> Seq<u8> {
    seq![1u8, user.len() as u8] + user + seq![password.len() as u8] + password
}

/// A user name and a password as they are sent. A length takes one byte, so
/// that neither can have more than 255 bytes.
pub fn credentials(user: &str, password: &str) -> (r: Result<Vec<u8>, Socks5Error>)
    ensures
        ({
            let u = user.spec_bytes();
            let p = password.spec_bytes();
            match r {
                Ok(bytes) => u.len() <= 255 && p.len() <= 255 && bytes@ == credentials_bytes(u, p),
                Err(e) => if u.len() > 255 {
                    e == Socks5Error::CredentialTooLong(u.len() as usize)
                } else {
                    p.len() > 255 && e == Socks5Error::CredentialTooLong(p.len() as usize)
                },
            }
        }),
{
    let mut r: Vec<u8> = Vec::new();
    let u: &[u8] = user.as_bytes();
    let p: &[u8] = password.as_bytes();
    if u.len() > 255 {
        return Err(Socks5Error::CredentialTooLong(u.len()));
    }
    if p.len() > 255 {
        return Err(Socks5Error::CredentialTooLong(p.len()));
    }
    r.push(1);
    r.push(u.len() as u8);
    push_all(&mut r, u);
    r.push(p.len() as u8);
    push_all(&mut r, p);
    assert(r@ =~= credentials_bytes(user.spec_bytes(), password.spec_bytes()));
    Ok(r)
}

/// What the answer to the credentials means.
pub open spec fn credentials_outcome(reply: Seq<u8>) -> Result<(), Socks5Error> {
    if reply[0] == 1 && reply[1] == 0 {
        Ok(())
    } else {
        Err(Socks5Error::AuthenticationFailed)
    }
}

/// Reads the answer to the credentials.
pub fn credentials_reply(reply: [u8; 2]) -> (r: Result<(), Socks5Error>)
    ensures
        r == credentials_outcome(reply@),
{
    if reply[0] != 1 || reply[1] != 0 {
        Err(Socks5Error::AuthenticationFailed)
    } else {
        Ok(())
    }
}

/// The address part of a request: an IPv4 or IPv6 address, or a domain with
/// its length.
pub open spec fn address_bytes(host: Seq<u8>, ip: Option<IpAddress>) -> Seq<u8> {
    match ip {
        Some(IpAddress::V4(_)) => seq![1u8] + ip->0.octets_spec(),
        Some(IpAddress::V6(_)) => seq![4u8] + ip->0.octets_spec(),
        None => seq![3u8, host.len() as u8] + host,
    }
}

/// A request to connect. A domain may have 255 bytes at most.
pub open spec fn connect_bytes(host: Seq<u8>, ip: Option<IpAddress>, port: u16) -> Result<
    Seq<u8>,
    Socks5Error,
> {
    if ip is None && host.len() > 255 {
        Err(Socks5Error::DomainTooLong(host.len() as usize))
    } else {
        Ok(seq![5u8, 1, 0] + address_bytes(host, ip) + be16_bytes(port))
    }
}

/// A request to connect to a host: by its address where the host is written as
/// one, else by its name.
pub fn connect_request(host: &str, ip: Option<IpAddress>, port: u16) -> (r: Result<
    Vec<u8>,
    Socks5Error,
>)
    ensures
        match (connect_bytes(host.spec_bytes(), ip, port), r) {
            (Ok(b), Ok(v)) => v@ == b,
            (Err(a), Err(e)) => a == e,
            _ => false,
        },
{
    let bytes: &[u8] = host.as_bytes();
    let mut r: Vec<u8> = Vec::new();
    r.push(5);
    r.push(1);
    r.push(0);
    match ip {
        Some(address) => {
            r.push(
                match address {
                    IpAddress::V4(_) => 1,
                    IpAddress::V6(_) => 4,
                },
            );
            let octets: Vec<u8> = address.octets();
            push_all(&mut r, octets.as_slice());
        },
        None => {
            if bytes.len() > 255 {
                return Err(Socks5Error::DomainTooLong(bytes.len()));
            }
            r.push(3);
            r.push((bytes.len() % 256) as u8);
            push_all(&mut r, bytes);
        },
    }
    push_be16(&mut r, port);
    assert(r@ =~= connect_bytes(host.spec_bytes(), ip, port)->Ok_0);
    Ok(r)
}

/// What is left to read of the answer to a request.
#[derive(Debug, Clone, Copy, PartialEq, Eq, Structural)]
pub enum ReplyRest {
    /// This many bytes.
    Bytes(usize),
    /// A length byte, that many bytes, and two more.
    LengthFirst,
}

/// What the first four bytes of the answer to a request mean.
pub open spec fn connect_outcome(header: Seq<u8>) -> Result<ReplyRest, Socks5Error> {
    if header[0] != 5 || header[1] != 0 {
        Err(Socks5Error::ConnectFailed(header[1]))
    } else if header[3] == 1 {
        Ok(ReplyRest::Bytes(6))
    } else if header[3] == 3 {
        Ok(ReplyRest::LengthFirst)
    } else if header[3] == 4 {
        Ok(ReplyRest::Bytes(18))
    } else {
        Err(Socks5Error::UnsupportedAddressType(header[3]))
    }
}

/// Reads the first four bytes of the answer to a request.
pub fn connect_reply(header: [u8; 4]) -> (r: Result<ReplyRest, Socks5Error>)
    ensures
        r == connect_outcome(header@),
{
    if header[0] != 5 || header[1] != 0 {
        return Err(Socks5Error::ConnectFailed(header[1]));
    }
    match header[3] {
        1 => Ok(ReplyRest::Bytes(6)),
        3 => Ok(ReplyRest::LengthFirst),
        4 => Ok(ReplyRest::Bytes(18)),
        t => Err(Socks5Error::UnsupportedAddressType(t)),
    }
}

/// How many bytes follow the length byte of an answer.
pub fn rest_after_length(len: u8) -> (r: usize)
    ensures
        r == len + 2,
{
    len as usize + 2
}

/// The answer to a request is read to its end: what is left is the address of
/// its type and the port.
pub proof fn replies_are_read_whole(header: Seq<u8>)
    requires
        header.len() == 4,
    ensures
        match connect_outcome(header) {
            Ok(ReplyRest::Bytes(n)) => (header[3] == 1 && n == 4 + 2) || (header[3] == 4 && n == 16
                + 2),
            Ok(ReplyRest::LengthFirst) => header[3] == 3,
            Err(_) => true,
        },
{
}

/// Credentials are sent only where they were offered and the proxy asks for
/// them.
pub proof fn credentials_are_sent_on_demand_only(reply: Seq<u8>, with_credentials: bool)
    requires
        reply.len() == 2,
        method_outcome(reply, with_credentials) == Ok::<AuthStep, Socks5Error>(
            AuthStep::SendCredentials,
        ),
    ensures
        with_credentials,
        reply[1] == 2,
{
}

/// A greeting names version 5, counts the methods that it offers and lists them:
/// always none, and a user name with a password where there are credentials.
pub proof fn greetings_offer_what_is_there(with_credentials: bool)
    ensures
        ({
            let g = greeting_bytes(with_credentials);
            &&& g[0] == 5
            &&& g.len() == 2 + g[1]
            &&& g.skip(2).contains(0)
            &&& g.skip(2).contains(2) <==> with_credentials
        }),
{
    let g = greeting_bytes(with_credentials);
    assert(g.skip(2)[0] == 0);
    if with_credentials {
        assert(g.skip(2)[1] == 2);
    }
}

/// What follows the proxy's choice, for every reply: it must speak version 5 and
/// choose a method that was offered; one with credentials has them sent.
pub proof fn the_choice_of_a_method_is_followed(version: u8, method: u8)
    ensures
        ({
            let bare = method_outcome(seq![version, method], false);
            let with = method_outcome(seq![version, method], true);
            &&& bare == Ok::<AuthStep, Socks5Error>(AuthStep::Ready) <==> version == 5 && method
                == 0
            &&& !(version == 5 && method == 0) ==> bare == Err::<AuthStep, Socks5Error>(
                Socks5Error::NoAuthRefused(method),
            )
            &&& with == Ok::<AuthStep, Socks5Error>(AuthStep::Ready) <==> version == 5 && method
                == 0
            &&& with == Ok::<AuthStep, Socks5Error>(AuthStep::SendCredentials) <==> version == 5
                && method == 2
            &&& with == Err::<AuthStep, Socks5Error>(Socks5Error::HandshakeFailed) <==> version
                != 5
            &&& with == Err::<AuthStep, Socks5Error>(Socks5Error::MethodsRejected) <==> version == 5
                && method != 0 && method != 2
        }),
{
}

/// Credentials are read back from what is sent: the version of the exchange, and
/// each part behind its length.
pub proof fn credentials_are_read_back(user: Seq<u8>, password: Seq<u8>)
    requires
        user.len() <= 255,
        password.len() <= 255,
    ensures
        ({
            let b = credentials_bytes(user, password);
            let n = b[1] as int;
            let m = b[2 + n] as int;
            &&& b[0] == 1
            &&& n == user.len() && m == password.len()
            &&& b.len() == 3 + n + m
            &&& b.subrange(2, 2 + n) == user
            &&& b.subrange(3 + n, 3 + n + m) == password
        }),
{
    let b = credentials_bytes(user, password);
    let n = user.len() as int;
    let m = password.len() as int;
    assert(b[1] == user.len());
    assert(b[2 + n] == password.len());
    assert(b.subrange(2, 2 + n) =~= user);
    assert(b.subrange(3 + n, 3 + n + m) =~= password);
}

/// Credentials are accepted by a reply of 1 and 0, and by no other.
pub proof fn credentials_are_accepted_exactly_so(version: u8, status: u8)
    ensures
        credentials_outcome(seq![version, status]) is Ok <==> version == 1 && status == 0,
        credentials_outcome(seq![version, status]) is Err ==> credentials_outcome(
            seq![version, status],
        )->Err_0 == Socks5Error::AuthenticationFailed,
{
}

/// A request is read back: version 5, the command to connect, a reserved zero,
/// the kind of address, the address, and the port in the last two bytes.
pub proof fn requests_are_read_back(host: Seq<u8>, ip: Option<IpAddress>, port: u16)
    requires
        ip is None ==> host.len() <= 255,
    ensures
        connect_bytes(host, ip, port) matches Ok(b) && {
            let n = b.len() as int;
            &&& b[0] == 5 && b[1] == 1 && b[2] == 0
            &&& b[n - 2] * 256 + b[n - 1] == port
            &&& ip is None ==> b[3] == 3 && b[4] == host.len() && n == 7 + host.len()
                && b.subrange(5, n - 2) == host
            &&& ip is Some && ip->0 is V4 ==> b[3] == 1 && n == 10 && b[4] * 0x100_0000 + b[5]
                * 0x1_0000 + b[6] * 0x100 + b[7] == ip->0->V4_0
            &&& ip is Some && ip->0 is V6 ==> b[3] == 4 && n == 22 && be_value(b.subrange(4, 20))
                == ip->0->V6_0
        },
{
    let b = connect_bytes(host, ip, port)->Ok_0;
    let n = b.len() as int;
    match ip {
        None => {
            assert(b.subrange(5, n - 2) =~= host);
        },
        Some(IpAddress::V4(a)) => {
            let o = be_digits(a as nat, 4);
            lemma_be_digits_len(a as nat, 4);
            vstd::arithmetic::power2::lemma2_to64();
            lemma_be_value_of_digits(a as nat, 4);
            the_first_byte_counts_most(o[0], o[1], o[2], o[3]);
            assert(o =~= seq![o[0], o[1], o[2], o[3]]);
            assert(be_value(o) == a);
        },
        Some(IpAddress::V6(a)) => {
            let o = be_digits(a as nat, 16);
            lemma_be_digits_len(a as nat, 16);
            vstd::arithmetic::power2::lemma2_to64();
            vstd::arithmetic::power2::lemma_pow2_adds(64, 64);
            lemma_be_value_of_digits(a as nat, 16);
            assert(b.subrange(4, 20) =~= o);
            assert(be_value(o) == a);
        },
    }
}

/// A host that is no address is refused where its name has more than 255 bytes,
/// and nothing else is.
pub proof fn long_names_are_refused(host: Seq<u8>, ip: Option<IpAddress>, port: u16)
    requires
        host.len() <= usize::MAX,
    ensures
        connect_bytes(host, ip, port) is Err <==> ip is None && host.len() > 255,
        connect_bytes(host, ip, port) is Err ==> connect_bytes(host, ip, port)->Err_0
            == Socks5Error::DomainTooLong(host.len() as usize),
{
}

/// What an answer to a request means: anything but version 5 and a zero is a
/// failure with its number; then the kind of address says how much follows, or
/// is unknown.
pub proof fn answers_are_told_by_their_head(header: Seq<u8>)
    requires
        header.len() == 4,
    ensures
        ({
            let r = connect_outcome(header);
            let ok = header[0] == 5 && header[1] == 0;
            let kind = header[3];
            &&& !ok <==> r == Err::<ReplyRest, Socks5Error>(Socks5Error::ConnectFailed(header[1]))
            &&& r == Ok::<ReplyRest, Socks5Error>(ReplyRest::Bytes(6)) <==> ok && kind == 1
            &&& r == Ok::<ReplyRest, Socks5Error>(ReplyRest::LengthFirst) <==> ok && kind == 3
            &&& r == Ok::<ReplyRest, Socks5Error>(ReplyRest::Bytes(18)) <==> ok && kind == 4
            &&& r == Err::<ReplyRest, Socks5Error>(Socks5Error::UnsupportedAddressType(kind)) <==> ok
                && kind != 1 && kind != 3 && kind != 4
        }),
{
}

} // verus!
