use core::time::Duration;
use vstd::prelude::*;
use vstd::string::*;

verus! {

/// HTTP method of a call.
#[derive(Clone, Copy, Debug, PartialEq, Eq, Structural)]
pub enum Method {
    Get,
    Post,
}

/// One `key=value` pair of a query string, not yet URL-encoded.
#[derive(Debug)]
pub struct QueryParam {
    pub key: String,
    pub value: String,
}

/// A query string as mathematics: the pairs in the order they are sent.
pub type QueryView = Seq<(Seq<char>, Seq<char>)>;

/// The pairs of a parameter list, each by the characters of its key and value.
pub open spec fn params_of(query: Seq<QueryParam>) -> QueryView {
    Seq::new(query.len(), |i: int| (query[i].key@, query[i].value@))
}

/// The character for a single decimal digit.
pub open spec fn digit_char(d: nat) -> char
    recommends
        d < 10,
{
    if d == 0 {
        '0'
    } else if d == 1 {
        '1'
    } else if d == 2 {
        '2'
    } else if d == 3 {
        '3'
    } else if d == 4 {
        '4'
    } else if d == 5 {
        '5'
    } else if d == 6 {
        '6'
    } else if d == 7 {
        '7'
    } else if d == 8 {
        '8'
    } else {
        '9'
    }
}

/// Decimal notation of a natural number, most significant digit first, without
/// leading zeros.
pub open spec fn decimal(n: nat) -> Seq<char>
    decreases n,
{
    if n < 10 {
        seq![digit_char(n)]
    } else {
        decimal(n / 10).push(digit_char(n % 10))
    }
}

/// Decimal notation of an integer: a minus sign before the digits of a negative one.
pub open spec fn signed_decimal(i: int) -> Seq<char> {
    if i < 0 {
        seq!['-'] + decimal((-i) as nat)
    } else {
        decimal(i as nat)
    }
}

/// The pair sent for a present number, nothing for an absent one.
pub open spec fn opt_number(key: Seq<char>, value: Option<u64>) -> QueryView {
    match value {
        Some(n) => seq![(key, decimal(n as nat))],
        None => seq![],
    }
}

/// The pair sent for a present signed number, nothing for an absent one.
pub open spec fn opt_signed(key: Seq<char>, value: Option<i64>) -> QueryView {
    match value {
        Some(n) => seq![(key, signed_decimal(n as int))],
        None => seq![],
    }
}

/// The pair sent for a present text, nothing for an absent one.
pub open spec fn opt_text(key: Seq<char>, value: Option<Seq<char>>) -> QueryView {
    match value {
        Some(t) => seq![(key, t)],
        None => seq![],
    }
}

/// The pair `key=1` when the flag is raised, nothing otherwise.
pub open spec fn flag(key: Seq<char>, raised: bool) -> QueryView {
    if raised {
        seq![(key, seq!['1'])]
    } else {
        seq![]
    }
}

/// The numbers of a list in decimal, separated by commas.
pub open spec fn comma_separated(ids: Seq<u64>) -> Seq<char>
    decreases ids.len(),
{
    if ids.len() == 0 {
        seq![]
    } else if ids.len() == 1 {
        decimal(ids[0] as nat)
    } else {
        comma_separated(ids.drop_last()) + seq![','] + decimal(ids.last() as nat)
    }
}

/// The pair sent for a non-empty id list, nothing for an empty one.
pub open spec fn id_list(key: Seq<char>, ids: Seq<u64>) -> QueryView {
    if ids.len() == 0 {
        seq![]
    } else {
        seq![(key, comma_separated(ids))]
    }
}

fn digit_str(d: u64) -> (s: &'static str)
    requires
        d < 10,
    ensures
        s@ == seq![digit_char(d as nat)],
{
    proof {
        reveal_strlit("0");
        reveal_strlit("1");
        reveal_strlit("2");
        reveal_strlit("3");
        reveal_strlit("4");
        reveal_strlit("5");
        reveal_strlit("6");
        reveal_strlit("7");
        reveal_strlit("8");
        reveal_strlit("9");
    }
    let s = if d == 0 {
        "0"
    } else if d == 1 {
        "1"
    } else if d == 2 {
        "2"
    } else if d == 3 {
        "3"
    } else if d == 4 {
        "4"
    } else if d == 5 {
        "5"
    } else if d == 6 {
        "6"
    } else if d == 7 {
        "7"
    } else if d == 8 {
        "8"
    } else {
        "9"
    };
    assert(s@ =~= seq![digit_char(d as nat)]);
    s
}

/// Writes a number in decimal.
pub fn decimal_string(n: u64) -> (text: String)
    ensures
        text@ == decimal(n as nat),
    decreases n,
{
    if n < 10 {
        String::from_str(digit_str(n))
    } else {
        let mut text = decimal_string(n / 10);
        text.append(digit_str(n % 10));
        assert(text@ =~= decimal(n as nat));
        text
    }
}

/// Writes a signed number in decimal.
pub fn signed_decimal_string(i: i64) -> (text: String)
    ensures
        text@ == signed_decimal(i as int),
{
    if i < 0 {
        let magnitude: u64 = if i == i64::MIN {
            9223372036854775808u64
        } else {
            (-i) as u64
        };
        proof {
            reveal_strlit("-");
        }
        let mut text = String::from_str("-");
        let digits = decimal_string(magnitude);
        text.append(digits.as_str());
        assert(text@ =~= signed_decimal(i as int));
        text
    } else {
        decimal_string(i as u64)
    }
}

/// Writes the numbers of a list in decimal, separated by commas.
pub fn comma_separated_string(ids: &Vec<u64>) -> (text: String)
    ensures
        text@ == comma_separated(ids@),
{
    let mut text = String::new();
    let mut i: usize = 0;
    proof {
        reveal_strlit(",");
    }
    while i < ids.len()
        invariant
            i <= ids.len(),
            text@ == comma_separated(ids@.take(i as int)),
            ","@ == seq![','],
        decreases ids.len() - i,
    {
        let digits = decimal_string(ids[i]);
        proof {
            let before = ids@.take(i as int);
            let after = ids@.take(i + 1);
            assert(after.drop_last() =~= before);
            assert(after.last() == ids@[i as int]);
        }
        if i > 0 {
            text.append(",");
        }
        text.append(digits.as_str());
        i = i + 1;
        assert(text@ =~= comma_separated(ids@.take(i as int)));
    }
    assert(ids@.take(ids.len() as int) =~= ids@);
    text
}

/// Everything needed to issue one call: method, path below the API host, the
/// query pairs in order and an optional time limit for the whole exchange.
#[derive(Debug)]
pub struct Request {
    pub method: Method,
    pub path: String,
    pub query: Vec<QueryParam>,
    pub timeout: Option<Duration>,
}

/// A request as mathematics.
pub struct RequestView {
    pub method: Method,
    pub path: Seq<char>,
    pub query: QueryView,
    pub timeout: Option<Duration>,
}

impl View for Request {
    type V = RequestView;

    open spec fn view(&self) -> RequestView {
        RequestView {
            method: self.method,
            path: self.path@,
            query: params_of(self.query@),
            timeout: self.timeout,
        }
    }
}

impl RequestView {
    /// The same request with more pairs at the end of its query.
    pub open spec fn with(self, more: QueryView) -> RequestView {
        RequestView { query: self.query + more, ..self }
    }
}

impl Request {
    /// A request with the given method and path and an empty query.
    pub fn new(method: Method, path: &str) -> (r: Request)
        ensures
            r@ == (RequestView { method, path: path@, query: seq![], timeout: None }),
    {
        let r = Request { method, path: String::from_str(path), query: Vec::new(), timeout: None };
        assert(r@.query =~= seq![]);
        r
    }

    /// A GET request for `path` with an empty query.
    pub fn get(path: &str) -> (r: Request)
        ensures
            r@ == (RequestView { method: Method::Get, path: path@, query: seq![], timeout: None }),
    {
        Request::new(Method::Get, path)
    }

    /// A POST request for `path` with an empty query.
    pub fn post(path: &str) -> (r: Request)
        ensures
            r@ == (RequestView { method: Method::Post, path: path@, query: seq![], timeout: None }),
    {
        Request::new(Method::Post, path)
    }

    /// Appends one pair.
    pub fn text(self, key: &str, value: String) -> (r: Request)
        ensures
            r@ == self@.with(seq![(key@, value@)]),
    {
        let mut r = self;
        r.query.push(QueryParam { key: String::from_str(key), value });
        assert(r@.query =~= self@.query + seq![(key@, value@)]);
        r
    }

    /// Appends a number in decimal.
    pub fn number(self, key: &str, value: u64) -> (r: Request)
        ensures
            r@ == self@.with(seq![(key@, decimal(value as nat))]),
    {
        self.text(key, decimal_string(value))
    }

    /// Appends `key=1` when `raised`, nothing otherwise.
    pub fn flag(self, key: &str, raised: bool) -> (r: Request)
        ensures
            r@ == self@.with(flag(key@, raised)),
    {
        if raised {
            proof {
                reveal_strlit("1");
            }
            let one = String::from_str("1");
            assert(one@ =~= seq!['1']);
            self.text(key, one)
        } else {
            assert(self@.query + flag(key@, raised) =~= self@.query);
            self
        }
    }

    /// Appends a number when there is one.
    pub fn opt_number(self, key: &str, value: Option<u64>) -> (r: Request)
        ensures
            r@ == self@.with(opt_number(key@, value)),
    {
        match value {
            Some(n) => self.number(key, n),
            None => {
                assert(self@.query + opt_number(key@, value) =~= self@.query);
                self
            },
        }
    }

    /// Appends a signed number when there is one.
    pub fn opt_signed(self, key: &str, value: Option<i64>) -> (r: Request)
        ensures
            r@ == self@.with(opt_signed(key@, value)),
    {
        match value {
            Some(n) => self.text(key, signed_decimal_string(n)),
            None => {
                assert(self@.query + opt_signed(key@, value) =~= self@.query);
                self
            },
        }
    }

    /// Appends a text when there is one.
    pub fn opt_text(self, key: &str, value: &Option<String>) -> (r: Request)
        ensures
            r@ == self@.with(opt_text(key@, value.deep_view())),
    {
        match value {
            Some(t) => self.text(key, t.clone()),
            None => {
                assert(self@.query + opt_text(key@, value.deep_view()) =~= self@.query);
                self
            },
        }
    }

    /// Appends a comma-separated id list unless the list is empty.
    pub fn id_list(self, key: &str, ids: &Vec<u64>) -> (r: Request)
        ensures
            r@ == self@.with(id_list(key@, ids@)),
    {
        if ids.len() == 0 {
            assert(self@.query + id_list(key@, ids@) =~= self@.query);
            self
        } else {
            self.text(key, comma_separated_string(ids))
        }
    }

    /// Sets the time limit when one is given, and keeps the present one otherwise.
    pub fn opt_timeout(self, timeout: Option<Duration>) -> (r: Request)
        ensures
            r@ == (RequestView {
                timeout: if timeout is Some { timeout } else { self@.timeout },
                ..self@
            }),
    {
        match timeout {
            Some(t) => {
                let mut r = self;
                r.timeout = Some(t);
                r
            },
            None => self,
        }
    }

    /// The address of the call: the API host followed by the path.
    pub fn url(&self, api_host: &str) -> (url: String)
        ensures
            url@ == api_host@ + self.path@,
    {
        let mut url = String::from_str(api_host);
        url.append(self.path.as_str());
        url
    }
}

} // verus!
