//! The arguments and command line of the OpenVPN process.
use vstd::prelude::*;
use vstd::std_specs::iter::IteratorSpec;

verus! {

/// An address OpenVPN connects to: a host name or IP address, and a port.
#[derive(Clone, Debug, PartialEq, Eq)]
pub struct RemoteAddr {
    pub address: String,
    pub port: u16,
}

impl RemoteAddr {
    pub fn new(address: &str, port: u16) -> (r: RemoteAddr)
        ensures
            r.address@ == address@,
            r.port == port,
    {
        RemoteAddr { address: String::from_str(address), port }
    }

    /// Reads `host:port`, split at the last colon; `None` when the host is
    /// empty or the port is not a decimal number that fits in 16 bits.
    pub fn parse(text: &str) -> (r: Option<RemoteAddr>)
        ensures
            r matches Some(a) ==> parses_as(text@, a.address@, a.port),
            r is None ==> forall|h: Seq<char>, p: u16| !parses_as(text@, h, p),
    {
        let chars = chars_of(text);
        let mut k: usize = chars.len();
        // look for the last colon, from the end
        while k > 0 && chars[k - 1] != ':'
            invariant
                k <= chars@.len(),
                chars@ == text@,
                forall|j: int| k <= j < chars@.len() ==> chars@[j] != ':',
            decreases k,
        {
            k = k - 1;
        }
        if k == 0 {
            proof {
                assert forall|h: Seq<char>, p: u16| !parses_as(text@, h, p) by {
                    if parses_as(text@, h, p) {
                        let j = choose|j: int| #![trigger is_last_colon(text@, j)]
                            is_last_colon(text@, j) && j > 0 && h == text@.take(j) && valid_port(
                            text@.skip(j + 1)) && digits_value(text@.skip(j + 1)) == p as nat;
                        assert(text@[j] == ':');
                    }
                }
            }
            return None;
        }
        let colon = k - 1;
        assert(is_last_colon(text@, colon as int));
        proof {
            assert forall|j: int| #[trigger] is_last_colon(text@, j) implies j == colon by {
                if j < colon {
                    assert(text@[colon as int] == ':');
                }
                if j > colon {
                    assert(text@[j] == ':');
                }
            }
        }
        if colon == 0 {
            return None;
        }
        match parse_port(&chars, colon + 1) {
            Some(port) => {
                let mut host = String::new();
                let mut i: usize = 0;
                while i < colon
                    invariant
                        i <= colon < chars@.len(),
                        chars@ == text@,
                        host@ == text@.take(i as int),
                    decreases colon - i,
                {
                    assert(text@.take(i + 1) =~= text@.take(i as int).push(text@[i as int]));
                    push_char(&mut host, chars[i]);
                    i = i + 1;
                }
                assert(parses_as(text@, host@, port));
                Some(RemoteAddr { address: host, port })
            },
            None => {
                assert(chars@.skip(colon + 1) == text@.skip(colon + 1));
                return None;
            },
        }
    }
}

/// The characters with the Unicode White_Space property.
pub open spec fn is_white_space(c: char) -> bool {
    let u = c as u32;
    (0x9 <= u <= 0xD) || u == 0x20 || u == 0x85 || u == 0xA0 || u == 0x1680 || (0x2000 <= u
        <= 0x200A) || u == 0x2028 || u == 0x2029 || u == 0x202F || u == 0x205F || u == 0x3000
}

/// Relies on `char::is_whitespace`: true exactly for the characters with the
/// Unicode White_Space property.
#[verifier::external_body]
fn char_is_whitespace(c: char) -> (r: bool)
    ensures
        r == is_white_space(c),
{
    c.is_whitespace()
}

/// Relies on `String::push`: appends the character to the end of the string.
#[verifier::external_body]
fn push_char(s: &mut String, c: char)
    ensures
        final(s)@ == old(s)@.push(c),
{
    s.push(c)
}

/// Whether the text holds a white space character.
pub open spec fn has_white_space(s: Seq<char>) -> bool {
    exists|i: int| 0 <= i < s.len() && is_white_space(#[trigger] s[i])
}

/// Whether the text holds a white space character.
fn contains_white_space(text: &str) -> (r: bool)
    ensures
        r == has_white_space(text@),
{
    broadcast use vstd::string::axiom_spec_iter, vstd::string::next_postcondition;

    let mut chars = text.chars();
    let ghost mut k: int = 0;
    loop
        invariant
            0 <= k <= text@.len(),
            chars.remaining() == text@.skip(k),
            forall|j: int| 0 <= j < k ==> !is_white_space(#[trigger] text@[j]),
        decreases text@.len() - k,
    {
        match chars.next() {
            Some(c) => {
                assert(text@.skip(k)[0] == text@[k]);
                if char_is_whitespace(c) {
                    return true;
                }
                proof {
                    assert(text@.skip(k).drop_first() =~= text@.skip(k + 1));
                    k = k + 1;
                }
            },
            None => {
                assert(k == text@.len());
                return false;
            },
        }
    }
}

/// The decimal digits of a number, most significant first.
pub open spec fn decimal(n: nat) -> Seq<char>
    decreases n,
{
    if n < 10 {
        seq![digit_char(n)]
    } else {
        decimal(n / 10).push(digit_char(n % 10))
    }
}

/// The character of a decimal digit.
pub open spec fn digit_char(d: nat) -> char {
    ((d + 48) as u8) as char
}

/// The decimal text of a port number.
#[verifier::rlimit(50)]
pub fn port_text(port: u16) -> (s: String)
    ensures
        s@ == decimal(port as nat),
{
    let mut digits: Vec<char> = Vec::new();
    let mut n: u16 = port;
    // digits holds the low digits of port, least significant first
    while n >= 10
        invariant
            decimal(port as nat) == decimal(n as nat) + digits@.reverse(),
        decreases n,
    {
        let d = n % 10;
        proof {
            assert(decimal(n as nat) == decimal((n / 10) as nat).push(digit_char(d as nat)));
            assert(digits@.push(digit_char(d as nat)).reverse() =~= seq![digit_char(d as nat)]
                + digits@.reverse());
        }
        digits.push(((d as u8) + 48) as char);
        n = n / 10;
    }
    let mut s = String::new();
    push_char(&mut s, ((n as u8) + 48) as char);
    let mut i: usize = digits.len();
    while i > 0
        invariant
            i <= digits.len(),
            decimal(port as nat) == s@ + digits@.take(i as int).reverse(),
        decreases i,
    {
        i = i - 1;
        proof {
            assert(digits@.take(i + 1).reverse() =~= seq![digits@[i as int]] + digits@.take(
                i as int,
            ).reverse());
        }
        push_char(&mut s, digits[i]);
    }
    proof {
        assert(digits@.take(0).reverse() =~= Seq::<char>::empty());
        assert(s@ + Seq::<char>::empty() =~= s@);
    }
    s
}

/// A decimal digit character.
pub open spec fn is_digit(c: char) -> bool {
    '0' <= c && c <= '9'
}

/// The number that a run of decimal digits spells.
pub open spec fn digits_value(d: Seq<char>) -> nat
    decreases d.len(),
{
    if d.len() == 0 {
        0
    } else {
        digits_value(d.drop_last()) * 10 + ((d.last() as u32) - ('0' as u32)) as nat
    }
}

/// The position of the last colon in the text.
pub open spec fn is_last_colon(s: Seq<char>, k: int) -> bool {
    0 <= k < s.len() && s[k] == ':' && forall|j: int| k < j < s.len() ==> s[j] != ':'
}

/// `host:port`, split at the last colon: a host that is not empty and a
/// port of one to five digits whose value fits in 16 bits.
pub open spec fn parses_as(s: Seq<char>, host: Seq<char>, port: u16) -> bool {
    exists|k: int|
        #![trigger is_last_colon(s, k)]
        is_last_colon(s, k) && k > 0 && host == s.take(k) && valid_port(s.skip(k + 1))
            && digits_value(s.skip(k + 1)) == port as nat
}

/// One to five digits whose value fits in 16 bits.
pub open spec fn valid_port(d: Seq<char>) -> bool {
    0 < d.len() <= 5 && (forall|i: int| 0 <= i < d.len() ==> is_digit(#[trigger] d[i]))
        && digits_value(d) <= 65535
}

/// The characters of a text.
fn chars_of(text: &str) -> (v: Vec<char>)
    ensures
        v@ == text@,
{
    broadcast use vstd::string::axiom_spec_iter, vstd::string::next_postcondition;

    let mut v: Vec<char> = Vec::new();
    let mut chars = text.chars();
    loop
        invariant
            v@.len() <= text@.len(),
            v@ == text@.take(v@.len() as int),
            chars.remaining() == text@.skip(v@.len() as int),
        decreases text@.len() - v@.len(),
    {
        match chars.next() {
            Some(c) => {
                proof {
                    assert(text@.skip(v@.len() as int)[0] == text@[v@.len() as int]);
                    assert(text@.skip(v@.len() as int).drop_first() =~= text@.skip(
                        v@.len() as int + 1,
                    ));
                    assert(v@.push(c) =~= text@.take(v@.len() as int + 1));
                }
                v.push(c);
            },
            None => {
                assert(v@ =~= text@);
                return v;
            },
        }
    }
}

/// The port that the digits from `start` on spell, if they make a valid port.
fn parse_port(d: &Vec<char>, start: usize) -> (r: Option<u16>)
    requires
        start <= d@.len(),
    ensures
        r is Some <==> valid_port(d@.skip(start as int)),
        r matches Some(p) ==> p as nat == digits_value(d@.skip(start as int)),
{
    let n = d.len() - start;
    if n == 0 || n > 5 {
        return None;
    }
    let mut value: u32 = 0;
    let mut i: usize = start;
    while i < d.len()
        invariant
            start <= i <= d@.len(),
            d@.len() - start <= 5,
            forall|j: int| start <= j < i ==> is_digit(#[trigger] d@[j]),
            value as nat == digits_value(d@.subrange(start as int, i as int)),
            value <= 99999,
        decreases d@.len() - i,
    {
        let c = d[i];
        if !('0' <= c && c <= '9') {
            proof {
                assert(d@.skip(start as int)[i - start] == c);
            }
            return None;
        }
        proof {
            let sub = d@.subrange(start as int, i + 1);
            assert(sub.drop_last() =~= d@.subrange(start as int, i as int));
            assert(sub.last() == c);
            assert(digits_value(d@.subrange(start as int, i as int)) < 10000) by {
                lemma_digits_bound(d@.subrange(start as int, i as int));
            }
        }
        value = value * 10 + ((c as u32) - ('0' as u32));
        i = i + 1;
    }
    assert(d@.subrange(start as int, i as int) =~= d@.skip(start as int));
    if value > 65535 {
        None
    } else {
        Some(value as u16)
    }
}

proof fn lemma_digits_bound(d: Seq<char>)
    requires
        d.len() <= 4,
        forall|i: int| 0 <= i < d.len() ==> is_digit(#[trigger] d[i]),
    ensures
        digits_value(d) < 10000,
        d.len() <= 3 ==> digits_value(d) < 1000,
        d.len() <= 2 ==> digits_value(d) < 100,
        d.len() <= 1 ==> digits_value(d) < 10,
    decreases d.len(),
{
    if d.len() > 0 {
        let r = d.drop_last();
        assert forall|i: int| 0 <= i < r.len() implies is_digit(#[trigger] r[i]) by {
            assert(r[i] == d[i]);
        }
        lemma_digits_bound(r);
        assert(is_digit(d[d.len() - 1]));
    }
}

/// An OpenVPN process builder, providing control over the arguments that
/// the OpenVPN binary is started with.
pub struct OpenVpnBuilder {
    pub openvpn_bin: String,
    pub config: Option<String>,
    pub remotes: Vec<RemoteAddr>,
}

/// The arguments that name the remotes, three for each in order.
pub open spec fn remote_args(remotes: Seq<RemoteAddr>) -> Seq<Seq<char>>
    decreases remotes.len(),
{
    if remotes.len() == 0 {
        seq![]
    } else {
        let last = remotes.last();
        remote_args(remotes.drop_last()) + seq!["--remote"@, last.address@, decimal(last.port as nat)]
    }
}

/// The arguments of the process: the configuration file, when set, then the remotes.
pub open spec fn arguments(b: OpenVpnBuilder) -> Seq<Seq<char>> {
    let config = match b.config {
        Some(c) => seq!["--config"@, c@],
        None => seq![],
    };
    config + remote_args(b.remotes@)
}

/// An argument as shown on a command line: quoted when it holds white space.
pub open spec fn quoted(arg: Seq<char>) -> Seq<char> {
    if has_white_space(arg) {
        "\""@ + arg + "\""@
    } else {
        arg
    }
}

/// The arguments as shown on a command line, each after a space.
pub open spec fn joined(args: Seq<Seq<char>>) -> Seq<char>
    decreases args.len(),
{
    if args.len() == 0 {
        seq![]
    } else {
        joined(args.drop_last()) + " "@ + quoted(args.last())
    }
}

/// Appends an argument after a space, quoted when it holds white space.
pub fn write_argument(out: &mut String, arg: &str)
    ensures
        final(out)@ == old(out)@ + " "@ + quoted(arg@),
{
    proof {
        reveal_strlit(" ");
        reveal_strlit("\"");
    }
    out.append(" ");
    let quote = contains_white_space(arg);
    if quote {
        out.append("\"");
    }
    out.append(arg);
    if quote {
        out.append("\"");
    }
    proof {
        if quote {
            assert(final(out)@ =~= old(out)@ + " "@ + quoted(arg@));
        } else {
            assert(final(out)@ =~= old(out)@ + " "@ + quoted(arg@));
        }
    }
}

impl OpenVpnBuilder {
    /// A builder for processes of the binary at `openvpn_bin`, with no
    /// configuration file and no remotes.
    pub fn new(openvpn_bin: &str) -> (b: OpenVpnBuilder)
        ensures
            b.openvpn_bin@ == openvpn_bin@,
            b.config is None,
            b.remotes@.len() == 0,
    {
        OpenVpnBuilder { openvpn_bin: String::from_str(openvpn_bin), config: None, remotes: Vec::new() }
    }

    /// Sets what configuration file will be given to OpenVPN.
    pub fn config(&mut self, path: &str)
        ensures
            final(self).config matches Some(c) && c@ == path@,
            final(self).openvpn_bin == old(self).openvpn_bin,
            final(self).remotes == old(self).remotes,
    {
        self.config = Some(String::from_str(path));
    }

    /// Sets the addresses that OpenVPN will connect to.
    pub fn remotes(&mut self, remotes: Vec<RemoteAddr>)
        ensures
            final(self).remotes == remotes,
            final(self).openvpn_bin == old(self).openvpn_bin,
            final(self).config == old(self).config,
    {
        self.remotes = remotes;
    }

    /// Sets the remotes from `host:port` texts, in order. When one of them
    /// does not parse, nothing changes and its position is returned.
    pub fn remotes_from_text(&mut self, texts: &[&str]) -> (r: Result<(), usize>)
        ensures
            r is Ok ==> final(self).remotes@.len() == texts@.len() && forall|i: int|
                0 <= i < texts@.len() ==> parses_as(
                    #[trigger] texts@[i]@,
                    final(self).remotes@[i].address@,
                    final(self).remotes@[i].port,
                ),
            r matches Err(i) ==> i < texts@.len() && forall|h: Seq<char>, p: u16|
                !parses_as(texts@[i as int]@, h, p),
            r is Err ==> *final(self) == *old(self),
            final(self).openvpn_bin == old(self).openvpn_bin,
            final(self).config == old(self).config,
    {
        let mut parsed: Vec<RemoteAddr> = Vec::new();
        let mut i: usize = 0;
        while i < texts.len()
            invariant
                i <= texts@.len(),
                parsed@.len() == i,
                forall|j: int|
                    0 <= j < i ==> parses_as(
                        #[trigger] texts@[j]@,
                        parsed@[j].address@,
                        parsed@[j].port,
                    ),
            decreases texts@.len() - i,
        {
            match RemoteAddr::parse(texts[i]) {
                Some(a) => parsed.push(a),
                None => return Err(i),
            }
            i = i + 1;
        }
        self.remotes = parsed;
        Ok(())
    }

    /// Returns all arguments that the process would be started with.
    pub fn get_arguments(&self) -> (args: Vec<String>)
        ensures
            args@.map_values(|a: String| a@) == arguments(*self),
    {
        let mut args: Vec<String> = Vec::new();
        if let Some(config) = &self.config {
            args.push(String::from_str("--config"));
            args.push(config.clone());
        }
        let ghost start = args@.map_values(|a: String| a@);
        assert(start + remote_args(self.remotes@.take(0)) =~= start) by {
            assert(self.remotes@.take(0) =~= Seq::<RemoteAddr>::empty());
        }
        let mut i: usize = 0;
        while i < self.remotes.len()
            invariant
                i <= self.remotes@.len(),
                start == (match self.config {
                    Some(c) => seq!["--config"@, c@],
                    None => Seq::<Seq<char>>::empty(),
                }),
                args@.map_values(|a: String| a@) == start + remote_args(self.remotes@.take(i as int)),
            decreases self.remotes@.len() - i,
        {
            let remote = &self.remotes[i];
            let ghost prev = args@.map_values(|a: String| a@);
            args.push(String::from_str("--remote"));
            args.push(remote.address.clone());
            args.push(port_text(remote.port));
            proof {
                let t = self.remotes@.take(i + 1);
                assert(t.drop_last() =~= self.remotes@.take(i as int));
                assert(t.last() == self.remotes@[i as int]);
                let added = seq!["--remote"@, remote.address@, decimal(remote.port as nat)];
                assert(args@.map_values(|a: String| a@) =~= prev + added);
                assert(remote_args(t) == remote_args(self.remotes@.take(i as int)) + added);
                assert(args@.map_values(|a: String| a@) =~= start + remote_args(t));
            }
            i = i + 1;
        }
        assert(self.remotes@.take(i as int) =~= self.remotes@);
        assert(args@.map_values(|a: String| a@) =~= arguments(*self));
        args
    }

    /// The program and its arguments as one line, each argument after a space
    /// and quoted when it holds white space.
    pub fn command_line(&self) -> (line: String)
        ensures
            line@ == self.openvpn_bin@ + joined(arguments(*self)),
    {
        let args = self.get_arguments();
        let mut line = self.openvpn_bin.clone();
        let mut i: usize = 0;
        proof {
            assert(args@.map_values(|a: String| a@).take(0) =~= Seq::<Seq<char>>::empty());
            assert(line@ + joined(Seq::<Seq<char>>::empty()) =~= line@);
        }
        while i < args.len()
            invariant
                i <= args@.len(),
                args@.map_values(|a: String| a@) == arguments(*self),
                line@ == self.openvpn_bin@ + joined(args@.map_values(|a: String| a@).take(i as int)),
            decreases args@.len() - i,
        {
            write_argument(&mut line, args[i].as_str());
            proof {
                let all = args@.map_values(|a: String| a@);
                let t = all.take(i + 1);
                assert(t.drop_last() =~= all.take(i as int));
                assert(t.last() == args@[i as int]@);
                assert(line@ =~= self.openvpn_bin@ + joined(t));
            }
            i = i + 1;
        }
        assert(args@.map_values(|a: String| a@).take(i as int) =~= arguments(*self));
        line
    }
}

} // verus!
