//! Text of the HTTP requests that the examples send to the delay server:
//! request paths carrying a delay in milliseconds, and the GET request
//! itself. Numbers are written in decimal, most significant digit first.
use vstd::prelude::*;
use vstd::string::*;

verus! {

/// The character of a decimal digit `d < 10`.
pub open spec fn digit_char(d: int) -> char {
    (48 + d) as char
}

/// Decimal notation of `n`, without leading zeros (`0` is written `"0"`).
pub open spec fn decimal(n: nat) -> Seq<char>
    decreases n,
{
    if n < 10 {
        seq![digit_char(n as int)]
    } else {
        decimal(n / 10).push(digit_char((n % 10) as int))
    }
}

/// The number that a string of decimal digits denotes.
pub open spec fn digits_value(s: Seq<char>) -> int
    decreases s.len(),
{
    if s.len() == 0 {
        0
    } else {
        digits_value(s.drop_last()) * 10 + (s.last() as int - 48)
    }
}

/// Every character is one of `0`..`9`.
pub open spec fn all_digits(s: Seq<char>) -> bool {
    forall|i: int| 0 <= i < s.len() ==> 48 <= #[trigger] (s[i] as int) <= 57
}

/// Path that asks the server to answer after `i * 1000` ms, tagged with `i`:
/// `/<i*1000>/HelloWorld<i>`.
pub open spec fn path_spec(i: nat) -> Seq<char> {
    "/"@ + decimal(i * 1000) + "/HelloWorld"@ + decimal(i)
}

/// Path of the `i`-th of `n` requests, whose delay shrinks as `i` grows:
/// `/<(n-i)*1000>/request-<i>`.
pub open spec fn request_path_spec(n: nat, i: nat) -> Seq<char> {
    "/"@ + decimal(((n - i) * 1000) as nat) + "/request-"@ + decimal(i)
}

/// The GET request for `path` on `localhost`, asking the server to close
/// the connection after answering.
pub open spec fn request_text(path: Seq<char>) -> Seq<char> {
    "GET "@ + path + " HTTP/1.1\r\nHost: localhost\r\nConnection: close\r\n\r\n"@
}

/// Decimal notation is made of digits and denotes the number it writes, so
/// two numbers with the same notation are equal.
pub proof fn lemma_decimal_value(n: nat)
    ensures
        decimal(n).len() > 0,
        all_digits(decimal(n)),
        digits_value(decimal(n)) == n,
    decreases n,
{
    let last = digit_char((n % 10) as int);
    assert(last as int == 48 + n % 10);
    if n < 10 {
        assert(decimal(n).drop_last() =~= Seq::<char>::empty());
        assert(digits_value(Seq::<char>::empty()) == 0);
        assert(decimal(n).last() == last);
    } else {
        lemma_decimal_value(n / 10);
        let s = decimal(n);
        assert(s.drop_last() =~= decimal(n / 10));
        assert(n == (n / 10) * 10 + n % 10);
        assert(s.last() == last);
        assert(digits_value(s) == digits_value(decimal(n / 10)) * 10 + (last as int - 48));
        assert forall|i: int| 0 <= i < s.len() implies 48 <= #[trigger] (s[i] as int) <= 57 by {
            if i < s.len() - 1 {
                assert(s[i] == decimal(n / 10)[i]);
            }
        }
    }
}

/// Two numbers are equal exactly when their decimal notations are.
pub proof fn lemma_decimal_injective(a: nat, b: nat)
    ensures
        decimal(a) == decimal(b) <==> a == b,
{
    lemma_decimal_value(a);
    lemma_decimal_value(b);
}

/// `s` reads `/<delay>/<word><tag>`: a slash, a non-empty run of decimal
/// digits denoting `delay`, a slash, `word`, and a non-empty run of decimal
/// digits denoting `tag`. The first run ends at the first slash after the
/// leading one, so it is the number between the first two slashes.
pub open spec fn delay_path(s: Seq<char>, delay: int, word: Seq<char>, tag: int) -> bool {
    exists|ds: Seq<char>, ts: Seq<char>|
        #![trigger digits_value(ds), digits_value(ts)]
        {
            &&& s == "/"@ + ds + "/"@ + word + ts
            &&& ds.len() > 0 && all_digits(ds) && digits_value(ds) == delay
            &&& ts.len() > 0 && all_digits(ts) && digits_value(ts) == tag
        }
}

proof fn lemma_delay_path_of_decimals(delay: nat, word: Seq<char>, tag: nat)
    ensures
        delay_path("/"@ + decimal(delay) + "/"@ + word + decimal(tag), delay as int, word, tag as int),
{
    lemma_decimal_value(delay);
    lemma_decimal_value(tag);
    let ds = decimal(delay);
    let ts = decimal(tag);
    assert(digits_value(ds) == delay && digits_value(ts) == tag);
}

/// The path `get_path(i)` asks for, and that `request(i)` awaits, waits
/// `i * 1000` ms and is tagged `HelloWorld<i>`: the number between its
/// first two slashes is `i * 1000`, and the one after `HelloWorld` is `i`.
pub proof fn lemma_path_names_delay_and_tag(i: nat)
    ensures
        delay_path(path_spec(i), (i * 1000) as int, "HelloWorld"@, i as int),
{
    reveal_strlit("/");
    reveal_strlit("/HelloWorld");
    reveal_strlit("HelloWorld");
    let d: nat = i * 1000;
    assert(path_spec(i) =~= "/"@ + decimal(d) + "/"@ + "HelloWorld"@ + decimal(i));
    lemma_delay_path_of_decimals(d, "HelloWorld"@, i);
}

/// The `i`-th of `n` request paths waits `(n - i) * 1000` ms and is tagged
/// `request-<i>`: the number between its first two slashes is
/// `(n - i) * 1000`, and the one after `request-` is `i`.
pub proof fn lemma_request_path_names_delay(n: nat, i: nat)
    requires
        i <= n,
    ensures
        delay_path(request_path_spec(n, i), (n - i) * 1000, "request-"@, i as int),
{
    reveal_strlit("/");
    reveal_strlit("/request-");
    reveal_strlit("request-");
    let d: nat = ((n - i) * 1000) as nat;
    assert(request_path_spec(n, i) =~= "/"@ + decimal(d) + "/"@ + "request-"@ + decimal(i));
    lemma_delay_path_of_decimals(d, "request-"@, i);
}

fn digit_str(d: usize) -> (s: &'static str)
    requires
        d < 10,
    ensures
        s@ == seq![digit_char(d as int)],
{
    if d == 0 {
        proof { reveal_strlit("0"); }
        "0"
    } else if d == 1 {
        proof { reveal_strlit("1"); }
        "1"
    } else if d == 2 {
        proof { reveal_strlit("2"); }
        "2"
    } else if d == 3 {
        proof { reveal_strlit("3"); }
        "3"
    } else if d == 4 {
        proof { reveal_strlit("4"); }
        "4"
    } else if d == 5 {
        proof { reveal_strlit("5"); }
        "5"
    } else if d == 6 {
        proof { reveal_strlit("6"); }
        "6"
    } else if d == 7 {
        proof { reveal_strlit("7"); }
        "7"
    } else if d == 8 {
        proof { reveal_strlit("8"); }
        "8"
    } else {
        proof { reveal_strlit("9"); }
        "9"
    }
}

/// Appends the decimal notation of `n` to `s`.
pub fn push_decimal(s: &mut String, n: usize)
    ensures
        final(s)@ == old(s)@ + decimal(n as nat),
    decreases n,
{
    if n >= 10 {
        push_decimal(s, n / 10);
    }
    s.append(digit_str(n % 10));
    proof {
        if n >= 10 {
            assert(final(s)@ =~= old(s)@ + decimal(n as nat));
        }
    }
}

/// The path `/<i*1000>/HelloWorld<i>`: a request the server answers after
/// `i` seconds.
pub fn get_path(i: usize) -> (path: String)
    requires
        i * 1000 <= usize::MAX,
    ensures
        path@ == path_spec(i as nat),
        delay_path(path@, i * 1000, "HelloWorld"@, i as int),
{
    proof {
        lemma_path_names_delay_and_tag(i as nat);
    }
    let mut path = String::from_str("/");
    push_decimal(&mut path, i * 1000);
    path.append("/HelloWorld");
    push_decimal(&mut path, i);
    proof {
        assert(path@ =~= path_spec(i as nat));
    }
    path
}

/// Same path as `get_path`: `/<i*1000>/HelloWorld<i>`.
pub fn read_request(i: usize) -> (path: String)
    requires
        i * 1000 <= usize::MAX,
    ensures
        path@ == path_spec(i as nat),
{
    get_path(i)
}

/// Path of the `i`-th of `n_events` requests: the server answers it after
/// `(n_events - i)` seconds, so later requests come back first.
pub fn request_path(n_events: usize, i: usize) -> (path: String)
    requires
        i <= n_events,
        (n_events - i) * 1000 <= usize::MAX,
    ensures
        path@ == request_path_spec(n_events as nat, i as nat),
        delay_path(path@, (n_events - i) * 1000, "request-"@, i as int),
{
    proof {
        lemma_request_path_names_delay(n_events as nat, i as nat);
    }
    let mut path = String::from_str("/");
    push_decimal(&mut path, (n_events - i) * 1000);
    path.append("/request-");
    push_decimal(&mut path, i);
    proof {
        assert(path@ =~= request_path_spec(n_events as nat, i as nat));
    }
    path
}

/// The GET request for `path` (everything after the host, such as
/// `/1000/hello`), sent to `localhost` with `Connection: close`.
pub fn get_req(path: &str) -> (req: String)
    ensures
        req@ == request_text(path@),
{
    let mut req = String::from_str("GET ");
    req.append(path);
    req.append(" HTTP/1.1\r\nHost: localhost\r\nConnection: close\r\n\r\n");
    proof {
        assert(req@ =~= request_text(path@));
    }
    req
}

} // verus!
