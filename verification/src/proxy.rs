//! Command-line settings of the proxy and the addresses derived from them.
use vstd::prelude::*;
use vstd::string::StringExecFns;

verus! {

/// Where the proxy listens and where it forwards to.
pub struct Args {
    /// Proxy server host.
    pub proxy_host: String,
    /// Proxy server port.
    pub proxy_port: u16,
    /// Forward server host.
    pub forward_host: String,
    /// Forward server port.
    pub forward_port: u16,
}

/// The character of a decimal digit.
pub open spec fn digit_char(d: nat) -> char
    recommends
        d < 10,
{
    (48 + d) as char
}

/// The decimal numeral of `n`: no sign, no leading zero.
pub open spec fn decimal(n: nat) -> Seq<char>
    decreases n,
{
    if n < 10 {
        seq![digit_char(n)]
    } else {
        decimal(n / 10).push(digit_char(n % 10))
    }
}

/// The number that a numeral of decimal digits spells.
pub open spec fn decimal_value(s: Seq<char>) -> int
    decreases s.len(),
{
    if s.len() == 0 {
        0
    } else {
        decimal_value(s.drop_last()) * 10 + (s.last() as int - 48)
    }
}

/// A numeral made of decimal digits only, with no leading zero (but `0`).
pub open spec fn is_canonical_decimal(s: Seq<char>) -> bool {
    &&& s.len() > 0
    &&& forall|i: int| 0 <= i < s.len() ==> '0' <= #[trigger] s[i] <= '9'
    &&& (s.len() > 1 ==> s[0] != '0')
}

/// The decimal numeral of `n` reads back as `n`, and it is canonical.
pub proof fn lemma_decimal_roundtrip(n: nat)
    ensures
        decimal_value(decimal(n)) == n,
        is_canonical_decimal(decimal(n)),
        n >= 10 ==> decimal(n).len() >= 2,
    decreases n,
{
    let c = digit_char(n % 10);
    assert(c as int == 48 + n % 10);
    assert('0' <= c <= '9');
    let s = decimal(n);
    if n < 10 {
        assert(s.drop_last() =~= Seq::<char>::empty());
        assert(decimal_value(s.drop_last()) == 0);
        assert(decimal_value(s) == n);
    } else {
        lemma_decimal_roundtrip(n / 10);
        let p = decimal(n / 10);
        assert(s.drop_last() =~= p);
        assert(s.last() == c);
        assert(decimal_value(s) == decimal_value(p) * 10 + n % 10);
        assert(p[0] == s[0]);
        assert(forall|i: int| 0 <= i < p.len() ==> s[i] == p[i]);
        assert forall|i: int| 0 <= i < s.len() implies '0' <= #[trigger] s[i] <= '9' by {
            if i < p.len() {
                assert(s[i] == p[i]);
            }
        }
        if p.len() == 1 {
            assert(n / 10 < 10);
            assert(p[0] == digit_char(n / 10));
            assert(digit_char(n / 10) as int == 48 + n / 10);
        }
    }
}

/// The one-character string of a decimal digit.
fn digit_str(d: u16) -> (s: &'static str)
    requires
        d < 10,
    ensures
        s@ == seq![digit_char(d as nat)],
{
    proof {
        reveal_strlit("0");
        reveal_strlit("1");
        reveal_strlit("2");
        reveal_strlit("3");
        reveal_strlit("4");
        reveal_strlit("5");
        reveal_strlit("6");
        reveal_strlit("7");
        reveal_strlit("8");
        reveal_strlit("9");
    }
    let s = if d == 0 {
        "0"
    } else if d == 1 {
        "1"
    } else if d == 2 {
        "2"
    } else if d == 3 {
        "3"
    } else if d == 4 {
        "4"
    } else if d == 5 {
        "5"
    } else if d == 6 {
        "6"
    } else if d == 7 {
        "7"
    } else if d == 8 {
        "8"
    } else {
        "9"
    };
    assert(s@ =~= seq![digit_char(d as nat)]);
    s
}

/// Appends the decimal numeral of `n` to `out`, as `Display` writes it.
fn push_decimal(out: &mut String, n: u16)
    ensures
        final(out)@ == old(out)@ + decimal(n as nat),
    decreases n,
{
    if n >= 10 {
        push_decimal(out, n / 10);
    }
    out.append(digit_str(n % 10));
    assert(final(out)@ =~= old(out)@ + decimal(n as nat));
}

/// `host:port`, the port as a decimal numeral.
pub fn host_port(host: &str, port: u16) -> (address: String)
    ensures
        address@ == host@ + ":"@ + decimal(port as nat),
{
    let mut address = String::from_str(host);
    address.append(":");
    push_decimal(&mut address, port);
    address
}

/// The handler that sends forwarded requests to the backend.
pub struct GrpcClient;

/// The handler that writes the backend's response back to the gRPC-web client.
pub struct GrpcWebServer;

/// The proxy: where it listens, where it forwards, and its two handlers.
pub struct GrpcWebProxy<T, S> {
    pub proxy_address: String,
    pub forward_base_url: String,
    pub grpc_client: T,
    pub grpc_web_server: S,
}

impl GrpcWebProxy<GrpcClient, GrpcWebServer> {
    /// The proxy for these settings: it listens on `proxy_host:proxy_port`
    /// and forwards to `http://forward_host:forward_port`.
    pub fn from_args(args: &Args) -> (proxy: Self)
        ensures
            proxy.proxy_address@ == args.proxy_host@ + ":"@ + decimal(args.proxy_port as nat),
            proxy.forward_base_url@ == "http://"@ + args.forward_host@ + ":"@ + decimal(
                args.forward_port as nat,
            ),
    {
        let proxy_address = host_port(args.proxy_host.as_str(), args.proxy_port);
        let mut forward_base_url = String::from_str("http://");
        let forward_address = host_port(args.forward_host.as_str(), args.forward_port);
        forward_base_url.append(forward_address.as_str());
        let grpc_client = GrpcClient;
        let grpc_web_server = GrpcWebServer;
        GrpcWebProxy::<GrpcClient, GrpcWebServer> {
            proxy_address,
            forward_base_url,
            grpc_client,
            grpc_web_server,
        }
    }
}

} // verus!
