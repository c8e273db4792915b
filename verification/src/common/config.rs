//! The command line: `mode address port name`.

use vstd::prelude::*;
use crate::common::message::{IpAddress, SocketAddress};
use crate::text::{chars_of, equal};

verus! {

/// Which side of the chat this process is.
#[derive(Debug, Clone, Copy, PartialEq, Eq, Structural)]
pub enum Mode {
    Client,
    Server,
}

/// What is wrong with the command line.
#[derive(Debug, Clone, Copy, PartialEq, Eq, Structural)]
pub enum ArgError {
    ModeUnspecified,
    ModeIncorrect,
    AddressUnspecified,
    AddressIncorrect,
    PortUnspecified,
    PortIncorrect,
    NameUnspecified,
}

impl ArgError {
    pub open spec fn text(&self) -> Seq<char> {
        match self {
            ArgError::ModeUnspecified => "mode unspecified"@,
            ArgError::ModeIncorrect => "mode incorrect"@,
            ArgError::AddressUnspecified => "address unspecified"@,
            ArgError::AddressIncorrect => "address incorrect"@,
            ArgError::PortUnspecified => "port unspecified"@,
            ArgError::PortIncorrect => "port incorrect"@,
            ArgError::NameUnspecified => "name unspecified"@,
        }
    }

    /// The error in words.
    pub fn to_string(&self) -> (s: String)
        ensures
            s@ == self.text(),
    {
        match self {
            ArgError::ModeUnspecified => "mode unspecified".to_owned(),
            ArgError::ModeIncorrect => "mode incorrect".to_owned(),
            ArgError::AddressUnspecified => "address unspecified".to_owned(),
            ArgError::AddressIncorrect => "address incorrect".to_owned(),
            ArgError::PortUnspecified => "port unspecified".to_owned(),
            ArgError::PortIncorrect => "port incorrect".to_owned(),
            ArgError::NameUnspecified => "name unspecified".to_owned(),
        }
    }
}

/// The mode that a word names.
pub open spec fn mode(word: Seq<char>) -> Result<Mode, ArgError> {
    if word == "client"@ {
        Ok(Mode::Client)
    } else if word == "server"@ {
        Ok(Mode::Server)
    } else {
        Err(ArgError::ModeIncorrect)
    }
}

impl Mode {
    pub fn from(arg: &str) -> (r: Result<Self, ArgError>)
        ensures
            r == mode(arg@),
    {
        if equal(arg, "client") {
            Ok(Self::Client)
        } else if equal(arg, "server") {
            Ok(Self::Server)
        } else {
            Err(ArgError::ModeIncorrect)
        }
    }
}

/// What the command line asks for.
#[derive(Debug, PartialEq)]
pub struct Config {
    pub mode: Mode,
    pub tcp: SocketAddress,
    pub name: String,
}

/// What a [`Config`] holds.
pub struct ConfigView {
    pub mode: Mode,
    pub tcp: SocketAddress,
    pub name: Seq<char>,
}

impl View for Config {
    type V = ConfigView;

    open spec fn view(&self) -> ConfigView {
        ConfigView { mode: self.mode, tcp: self.tcp, name: self.name@ }
    }
}

impl Clone for Config {
    fn clone(&self) -> (copy: Self)
        ensures
            copy@ == self@,
    {
        Config { mode: self.mode, tcp: self.tcp, name: self.name.clone() }
    }
}

impl Config {
    pub fn new(mode: Mode, tcp: SocketAddress, name: String) -> (config: Self)
        ensures
            config@ == (ConfigView { mode, tcp, name: name@ }),
    {
        Config { mode, tcp, name }
    }
}

pub open spec fn is_digit(c: char) -> bool {
    '0' <= c <= '9'
}

/// The number that a sequence of decimal digits spells.
pub open spec fn decimal(digits: Seq<char>) -> nat
    decreases digits.len(),
{
    if digits.len() == 0 {
        0
    } else {
        (decimal(digits.drop_last()) * 10 + (digits.last() as u32 - '0' as u32)) as nat
    }
}

/// The digits of a port as written: the text itself, or what follows its
/// leading plus sign.
pub open spec fn unsigned(text: Seq<char>) -> Seq<char> {
    if text.len() > 0 && text[0] == '+' {
        text.drop_first()
    } else {
        text
    }
}

/// The port that a text spells: one or more decimal digits, a plus sign
/// before them or not, that spell a number below 65536.
pub open spec fn port(text: Seq<char>) -> Option<u16> {
    let digits = unsigned(text);
    if digits.len() > 0 && (forall|i: int| 0 <= i < digits.len() ==> is_digit(#[trigger] digits[i]))
        && decimal(digits) <= u16::MAX {
        Some(decimal(digits) as u16)
    } else {
        None
    }
}

/// A longer sequence of digits spells no smaller number.
pub proof fn lemma_decimal_grows(digits: Seq<char>, n: int)
    requires
        0 <= n <= digits.len(),
        forall|i: int| 0 <= i < digits.len() ==> is_digit(#[trigger] digits[i]),
    ensures
        decimal(digits.take(n)) <= decimal(digits),
    decreases digits.len() - n,
{
    if n < digits.len() {
        lemma_decimal_grows(digits, n + 1);
        let longer = digits.take(n + 1);
        assert(longer.drop_last() =~= digits.take(n));
        assert(is_digit(digits[n]));
        assert(longer.last() == digits[n]);
    } else {
        assert(digits.take(n) =~= digits);
    }
}

/// Reads a port number.
pub fn parse_port(text: &str) -> (r: Option<u16>)
    ensures
        r == port(text@),
{
    let chars = chars_of(text);
    let start: usize = if chars.len() > 0 && chars[0] == '+' {
        1
    } else {
        0
    };
    let ghost digits = unsigned(text@);
    assert(digits =~= chars@.skip(start as int));
    if start == chars.len() {
        return None;
    }
    let mut value: u32 = 0;
    let mut i: usize = start;
    assert(digits.take(0) =~= Seq::<char>::empty());
    while i < chars.len()
        invariant
            start <= i <= chars.len(),
            digits == chars@.skip(start as int),
            digits == unsigned(text@),
            forall|j: int| 0 <= j < i - start ==> is_digit(#[trigger] digits[j]),
            value == decimal(digits.take(i - start)),
            value <= u16::MAX,
        decreases chars.len() - i,
    {
        let c = chars[i];
        assert(digits[i - start] == c);
        if c < '0' || c > '9' {
            assert(!is_digit(digits[i - start]));
            return None;
        }
        let digit: u32 = c as u32 - '0' as u32;
        proof {
            let longer = digits.take(i - start + 1);
            assert(longer.drop_last() =~= digits.take(i - start));
            assert(longer.last() == c);
        }
        value = value * 10 + digit;
        assert(value == decimal(digits.take(i - start + 1)));
        if value > 65535 {
            proof {
                if forall|j: int| 0 <= j < digits.len() ==> is_digit(#[trigger] digits[j]) {
                    lemma_decimal_grows(digits, i - start + 1);
                    assert(decimal(digits) > u16::MAX);
                }
            }
            return None;
        }
        i += 1;
    }
    assert(digits.take(i - start) =~= digits);
    Some(value as u16)
}

/// The arguments of the command line, without the program's name.
#[derive(Debug)]
pub struct Args(Vec<String>);

impl View for Args {
    type V = Seq<Seq<char>>;

    closed spec fn view(&self) -> Seq<Seq<char>> {
        Seq::new(self.0@.len(), |i: int| self.0@[i]@)
    }
}

/// What the arguments ask for, or the first thing wrong with them. `ip` is
/// the host address that the second argument spells, if it spells one.
pub open spec fn configuration(args: Seq<Seq<char>>, ip: Option<IpAddress>) -> Result<
    ConfigView,
    ArgError,
> {
    if args.len() < 1 {
        Err(ArgError::ModeUnspecified)
    } else if mode(args[0]).is_err() {
        Err(ArgError::ModeIncorrect)
    } else if args.len() < 2 {
        Err(ArgError::AddressUnspecified)
    } else if ip.is_none() {
        Err(ArgError::AddressIncorrect)
    } else if args.len() < 3 {
        Err(ArgError::PortUnspecified)
    } else if port(args[2]).is_none() {
        Err(ArgError::PortIncorrect)
    } else if args.len() < 4 || args[3].len() == 0 {
        Err(ArgError::NameUnspecified)
    } else {
        Ok(
            ConfigView {
                mode: mode(args[0]).unwrap(),
                tcp: SocketAddress { ip: ip.unwrap(), port: port(args[2]).unwrap() },
                name: args[3],
            },
        )
    }
}

impl Args {
    /// The arguments as given.
    pub fn new(args: Vec<String>) -> (r: Self)
        ensures
            r@ == Seq::new(args@.len(), |i: int| args@[i]@),
    {
        Args(args)
    }

    /// The second argument, which is to spell the host address.
    pub fn address(&self) -> (r: Option<&str>)
        ensures
            match r {
                Some(text) => self@.len() >= 2 && text@ == self@[1],
                None => self@.len() < 2,
            },
    {
        if self.0.len() < 2 {
            None
        } else {
            Some(self.0[1].as_str())
        }
    }

    /// Reads the arguments. The host address is read by the caller, who
    /// passes what [`Args::address`] spells, or `None` if that is no address.
    pub fn parse(self, ip: Option<IpAddress>) -> (r: Result<Config, ArgError>)
        ensures
            match configuration(self@, ip) {
                Ok(config) => r.is_ok() && r.unwrap()@ == config,
                Err(reason) => r == Err::<Config, ArgError>(reason),
            },
    {
        let args = self.0;

        if args.len() < 1 {
            return Err(ArgError::ModeUnspecified);
        }
        let mode = match Mode::from(args[0].as_str()) {
            Ok(mode) => mode,
            Err(reason) => { return Err(reason); },
        };

        if args.len() < 2 {
            return Err(ArgError::AddressUnspecified);
        }
        let ip = match ip {
            Some(ip) => ip,
            None => { return Err(ArgError::AddressIncorrect); },
        };

        if args.len() < 3 {
            return Err(ArgError::PortUnspecified);
        }
        let port = match parse_port(args[2].as_str()) {
            Some(port) => port,
            None => { return Err(ArgError::PortIncorrect); },
        };

        let tcp = SocketAddress { ip, port };

        if args.len() < 4 {
            return Err(ArgError::NameUnspecified);
        }
        let name = args[3].clone();

        if name.as_str().unicode_len() == 0 {
            return Err(ArgError::NameUnspecified);
        }
        Ok(Config::new(mode, tcp, name))
    }
}

} // verus!
