//! Requests toward the server, and their wire text.
//!
//! Every rendering here is total: a request always has a text, and the text
//! of a whole request ends with the frame terminator `0x04`.
use vstd::prelude::*;
use vstd::string::*;

use crate::text::{decimal, join, json_string, push_decimal, push_item, push_json_string};

verus! {

// ---------------------------------------------------------------------------
// Flags

/// The number of flags a `get` command knows.
pub const FLAG_COUNT: usize = 14;

/// The wire name of the `k`-th flag, in declaration order.
pub open spec fn flag_name(k: int) -> Seq<char> {
    if k == 0 { "basic"@ }
    else if k == 1 { "details"@ }
    else if k == 2 { "anime"@ }
    else if k == 3 { "relations"@ }
    else if k == 4 { "tags"@ }
    else if k == 5 { "stats"@ }
    else if k == 6 { "screens"@ }
    else if k == 7 { "staff"@ }
    else if k == 8 { "vn"@ }
    else if k == 9 { "producers"@ }
    else if k == 10 { "meas"@ }
    else if k == 11 { "traits"@ }
    else if k == 12 { "vns"@ }
    else { "voiced"@ }
}

/// The bit that stands for the `k`-th flag.
pub open spec fn flag_bit(k: int) -> u16 {
    if k == 0 { 0x1 }
    else if k == 1 { 0x2 }
    else if k == 2 { 0x4 }
    else if k == 3 { 0x8 }
    else if k == 4 { 0x10 }
    else if k == 5 { 0x20 }
    else if k == 6 { 0x40 }
    else if k == 7 { 0x80 }
    else if k == 8 { 0x100 }
    else if k == 9 { 0x200 }
    else if k == 10 { 0x400 }
    else if k == 11 { 0x800 }
    else if k == 12 { 0x1000 }
    else { 0x2000 }
}

/// Whether the set `bits` holds the `k`-th flag.
pub open spec fn has_flag(bits: u16, k: int) -> bool {
    bits & flag_bit(k) != 0
}

/// The names of the flags of `bits` among the first `k`, in declaration order.
pub open spec fn flag_names(bits: u16, k: int) -> Seq<Seq<char>>
    decreases k,
{
    if k <= 0 {
        Seq::empty()
    } else if has_flag(bits, k - 1) {
        flag_names(bits, k - 1).push(flag_name(k - 1))
    } else {
        flag_names(bits, k - 1)
    }
}

/// The wire text of a flag set: its names in declaration order, joined by commas.
pub open spec fn flags_text(bits: u16) -> Seq<char> {
    join(flag_names(bits, FLAG_COUNT as int), ","@)
}

fn flag_name_str(k: usize) -> (r: &'static str)
    requires
        k < FLAG_COUNT,
    ensures
        r@ == flag_name(k as int),
{
    match k {
        0 => "basic",
        1 => "details",
        2 => "anime",
        3 => "relations",
        4 => "tags",
        5 => "stats",
        6 => "screens",
        7 => "staff",
        8 => "vn",
        9 => "producers",
        10 => "meas",
        11 => "traits",
        12 => "vns",
        _ => "voiced",
    }
}

fn flag_bit_of(k: usize) -> (r: u16)
    requires
        k < FLAG_COUNT,
    ensures
        r == flag_bit(k as int),
{
    match k {
        0 => 0x1,
        1 => 0x2,
        2 => 0x4,
        3 => 0x8,
        4 => 0x10,
        5 => 0x20,
        6 => 0x40,
        7 => 0x80,
        8 => 0x100,
        9 => 0x200,
        10 => 0x400,
        11 => 0x800,
        12 => 0x1000,
        _ => 0x2000,
    }
}

/// The set of flags of a `get` command: which parts of each entity to send.
#[derive(Clone, Debug)]
pub struct Flags {
    flags: u16,
}

impl View for Flags {
    type V = u16;

    /// The set, one bit per flag (`flag_bit`).
    closed spec fn view(&self) -> u16 {
        self.flags
    }
}

impl Flags {
    /// The empty set.
    pub fn new() -> (r: Self)
        ensures
            r@ == 0,
    {
        Self { flags: 0 }
    }

    fn push(self, flag: u16) -> (r: Self)
        ensures
            r@ == self@ | flag,
    {
        Self { flags: self.flags | flag }
    }

    /// Adds `basic`.
    pub fn basic(self) -> (r: Self)
        ensures
            r@ == self@ | flag_bit(0),
    {
        self.push(0x1)
    }

    /// Adds `details`.
    pub fn details(self) -> (r: Self)
        ensures
            r@ == self@ | flag_bit(1),
    {
        self.push(0x2)
    }

    /// Adds `anime`.
    pub fn anime(self) -> (r: Self)
        ensures
            r@ == self@ | flag_bit(2),
    {
        self.push(0x4)
    }

    /// Adds `relations`.
    pub fn relations(self) -> (r: Self)
        ensures
            r@ == self@ | flag_bit(3),
    {
        self.push(0x8)
    }

    /// Adds `tags`.
    pub fn tags(self) -> (r: Self)
        ensures
            r@ == self@ | flag_bit(4),
    {
        self.push(0x10)
    }

    /// Adds `stats`.
    pub fn stats(self) -> (r: Self)
        ensures
            r@ == self@ | flag_bit(5),
    {
        self.push(0x20)
    }

    /// Adds `screens`.
    pub fn screens(self) -> (r: Self)
        ensures
            r@ == self@ | flag_bit(6),
    {
        self.push(0x40)
    }

    /// Adds `staff`.
    pub fn staff(self) -> (r: Self)
        ensures
            r@ == self@ | flag_bit(7),
    {
        self.push(0x80)
    }

    /// Adds `vn`.
    pub fn vn(self) -> (r: Self)
        ensures
            r@ == self@ | flag_bit(8),
    {
        self.push(0x100)
    }

    /// Adds `producers`.
    pub fn producers(self) -> (r: Self)
        ensures
            r@ == self@ | flag_bit(9),
    {
        self.push(0x200)
    }

    /// Adds `meas`.
    pub fn meas(self) -> (r: Self)
        ensures
            r@ == self@ | flag_bit(10),
    {
        self.push(0x400)
    }

    /// Adds `traits`.
    pub fn traits(self) -> (r: Self)
        ensures
            r@ == self@ | flag_bit(11),
    {
        self.push(0x800)
    }

    /// Adds `vns`.
    pub fn vns(self) -> (r: Self)
        ensures
            r@ == self@ | flag_bit(12),
    {
        self.push(0x1000)
    }

    /// Adds `voiced`.
    pub fn voiced(self) -> (r: Self)
        ensures
            r@ == self@ | flag_bit(13),
    {
        self.push(0x2000)
    }

    /// The wire text: the names of the flags in declaration order, joined by
    /// commas; each flag once, however often it was added.
    pub fn render(&self) -> (r: String)
        ensures
            r@ == flags_text(self@),
    {
        let mut s = String::new();
        let mut k: usize = 0;
        let mut first = true;
        assert(s@ =~= Seq::<char>::empty() + join(flag_names(self.flags, 0), ","@));
        while k < FLAG_COUNT
            invariant
                k <= FLAG_COUNT,
                s@ == Seq::<char>::empty() + join(flag_names(self.flags, k as int), ","@),
                first == (flag_names(self.flags, k as int).len() == 0),
            decreases FLAG_COUNT - k,
        {
            if self.flags & flag_bit_of(k) != 0 {
                push_item(
                    &mut s,
                    first,
                    ",",
                    flag_name_str(k),
                    Ghost(Seq::empty()),
                    Ghost(flag_names(self.flags, k as int)),
                );
                first = false;
            }
            k = k + 1;
        }
        assert(s@ =~= flags_text(self@));
        s
    }
}

// ---------------------------------------------------------------------------
// Entity types

#[derive(Clone, Copy, Debug, PartialEq, Eq)]
enum Kind {
    Vn,
    Release,
    Producer,
    Character,
    Staff,
    User,
    Votelist,
    Vnlist,
    Wishlist,
    Ulist,
}

spec fn kind_name(k: Kind) -> Seq<char> {
    match k {
        Kind::Vn => "vn"@,
        Kind::Release => "release"@,
        Kind::Producer => "producer"@,
        Kind::Character => "character"@,
        Kind::Staff => "staff"@,
        Kind::User => "user"@,
        Kind::Votelist => "votelist"@,
        Kind::Vnlist => "vnlist"@,
        Kind::Wishlist => "wishlist"@,
        Kind::Ulist => "ulist"@,
    }
}

/// The type of entity a `get` command asks for.
#[derive(Clone, Debug)]
pub struct Type {
    kind: Kind,
}

impl View for Type {
    type V = Seq<char>;

    /// The wire name of the type.
    closed spec fn view(&self) -> Seq<char> {
        kind_name(self.kind)
    }
}

impl Type {
    /// Visual novels.
    pub fn vn() -> (r: Self)
        ensures
            r@ == "vn"@,
    {
        Self { kind: Kind::Vn }
    }

    /// Releases of visual novels.
    pub fn release() -> (r: Self)
        ensures
            r@ == "release"@,
    {
        Self { kind: Kind::Release }
    }

    /// Producers.
    pub fn producer() -> (r: Self)
        ensures
            r@ == "producer"@,
    {
        Self { kind: Kind::Producer }
    }

    /// Characters.
    pub fn character() -> (r: Self)
        ensures
            r@ == "character"@,
    {
        Self { kind: Kind::Character }
    }

    /// Staff.
    pub fn staff() -> (r: Self)
        ensures
            r@ == "staff"@,
    {
        Self { kind: Kind::Staff }
    }

    /// Users.
    pub fn user() -> (r: Self)
        ensures
            r@ == "user"@,
    {
        Self { kind: Kind::User }
    }

    /// A user's votes.
    pub fn votelist() -> (r: Self)
        ensures
            r@ == "votelist"@,
    {
        Self { kind: Kind::Votelist }
    }

    /// A user's list of visual novels.
    pub fn vnlist() -> (r: Self)
        ensures
            r@ == "vnlist"@,
    {
        Self { kind: Kind::Vnlist }
    }

    /// A user's wishlist.
    pub fn wishlist() -> (r: Self)
        ensures
            r@ == "wishlist"@,
    {
        Self { kind: Kind::Wishlist }
    }

    /// Votes, list and wishlist of a user together.
    pub fn ulist() -> (r: Self)
        ensures
            r@ == "ulist"@,
    {
        Self { kind: Kind::Ulist }
    }

    /// The wire name.
    pub fn name(&self) -> (r: &'static str)
        ensures
            r@ == self@,
    {
        match self.kind {
            Kind::Vn => "vn",
            Kind::Release => "release",
            Kind::Producer => "producer",
            Kind::Character => "character",
            Kind::Staff => "staff",
            Kind::User => "user",
            Kind::Votelist => "votelist",
            Kind::Vnlist => "vnlist",
            Kind::Wishlist => "wishlist",
            Kind::Ulist => "ulist",
        }
    }

    /// The one-letter code of the type, the first letter of its name, as used
    /// in links (`v17`).
    pub fn short(&self) -> (r: &'static str)
        ensures
            r@ == self@.subrange(0, 1),
    {
        proof {
            reveal_strlit("vn");
            reveal_strlit("release");
            reveal_strlit("producer");
            reveal_strlit("character");
            reveal_strlit("staff");
            reveal_strlit("user");
            reveal_strlit("votelist");
            reveal_strlit("vnlist");
            reveal_strlit("wishlist");
            reveal_strlit("ulist");
            reveal_strlit("v");
            reveal_strlit("r");
            reveal_strlit("p");
            reveal_strlit("c");
            reveal_strlit("s");
            reveal_strlit("u");
            reveal_strlit("w");
        }
        let r = match self.kind {
            Kind::Vn => "v",
            Kind::Release => "r",
            Kind::Producer => "p",
            Kind::Character => "c",
            Kind::Staff => "s",
            Kind::User => "u",
            Kind::Votelist => "v",
            Kind::Vnlist => "v",
            Kind::Wishlist => "w",
            Kind::Ulist => "u",
        };
        assert(r@ =~= self@.subrange(0, 1));
        r
    }
}

// ---------------------------------------------------------------------------
// Filters

/// The wire text of a filter expression: its atoms and connectives joined by
/// spaces inside parentheses, or nothing at all when there are none.
pub open spec fn filters_text(items: Seq<Seq<char>>) -> Seq<char> {
    if items.len() == 0 {
        Seq::empty()
    } else {
        "("@ + join(items, " "@) + ")"@
    }
}

/// A filter expression: a sequence of atoms (`id = 1`) and the connectives
/// `and` and `or`, in the order they were added.
///
/// The atoms are taken as they are written; their syntax is the caller's.
#[derive(Clone, Debug)]
pub struct Filters {
    inner: Vec<String>,
}

impl View for Filters {
    type V = Seq<Seq<char>>;

    closed spec fn view(&self) -> Seq<Seq<char>> {
        self.inner@.map_values(|s: String| s@)
    }
}

impl Filters {
    /// The empty expression.
    pub fn new() -> (r: Self)
        ensures
            r@ == Seq::<Seq<char>>::empty(),
    {
        let r = Self { inner: Vec::new() };
        assert(r@ =~= Seq::<Seq<char>>::empty());
        r
    }

    /// Adds `element` at the end.
    pub fn filter(self, element: &str) -> (r: Self)
        ensures
            r@ == self@.push(element@),
    {
        let mut inner = self.inner;
        inner.push(element.to_owned());
        let r = Self { inner };
        assert(r@ =~= self@.push(element@));
        r
    }

    /// Adds `and` and then `filter`.
    pub fn and(self, filter: &str) -> (r: Self)
        ensures
            r@ == self@.push("and"@).push(filter@),
    {
        self.filter("and").filter(filter)
    }

    /// Adds `or` and then `filter`.
    pub fn or(self, filter: &str) -> (r: Self)
        ensures
            r@ == self@.push("or"@).push(filter@),
    {
        self.filter("or").filter(filter)
    }

    /// The wire text (`filters_text`).
    pub fn render(&self) -> (r: String)
        ensures
            r@ == filters_text(self@),
    {
        let n = self.inner.len();
        if n == 0 {
            return String::new();
        }
        let mut s = String::from_str("(");
        let mut i: usize = 0;
        assert(self@.subrange(0, 0) =~= Seq::<Seq<char>>::empty());
        while i < n
            invariant
                i <= n,
                n == self.inner@.len(),
                self@ == self.inner@.map_values(|s: String| s@),
                s@ == "("@ + join(self@.subrange(0, i as int), " "@),
            decreases n - i,
        {
            proof {
                assert(self@.subrange(0, i + 1) =~= self@.subrange(0, i as int).push(self.inner@[i as int]@));
            }
            push_item(
                &mut s,
                i == 0,
                " ",
                self.inner[i].as_str(),
                Ghost("("@),
                Ghost(self@.subrange(0, i as int)),
            );
            i = i + 1;
        }
        s.append(")");
        assert(self@.subrange(0, n as int) =~= self@);
        s
    }
}

// ---------------------------------------------------------------------------
// Options

/// The one member `part` as a list, or no member.
pub open spec fn part_of(part: Option<Seq<char>>) -> Seq<Seq<char>> {
    match part {
        Some(p) => seq![p],
        None => Seq::empty(),
    }
}

/// The members of the options object that are present, in their fixed order.
pub open spec fn options_parts(o: Options) -> Seq<Seq<char>> {
    part_of(
        match o.page {
            Some(n) => Some("\"page\":"@ + decimal(n as nat)),
            None => None,
        },
    ) + part_of(
        match o.results {
            Some(n) => Some("\"results\":"@ + decimal(n as nat)),
            None => None,
        },
    ) + part_of(
        match o.sort {
            Some(f) => Some("\"sort\":"@ + json_string(f@)),
            None => None,
        },
    ) + part_of(
        match o.reverse {
            Some(b) => Some("\"reverse\":"@ + if b { "true"@ } else { "false"@ }),
            None => None,
        },
    )
}

/// The wire text of the options: a compact JSON object of the present members.
pub open spec fn options_text(o: Options) -> Seq<char> {
    "{"@ + join(options_parts(o), ","@) + "}"@
}

/// Paging and order of the results of a `get` command.
#[derive(Clone, Debug)]
pub struct Options {
    /// The page to send, from 1.
    pub page: Option<u32>,
    /// The number of results per page.
    pub results: Option<u32>,
    /// The field to sort by.
    pub sort: Option<String>,
    /// Whether to reverse the order.
    pub reverse: Option<bool>,
}

impl Options {
    /// The wire text (`options_text`).
    pub fn render(&self) -> (r: String)
        ensures
            r@ == options_text(*self),
    {
        let mut s = String::from_str("{");
        let ghost mut parts: Seq<Seq<char>> = Seq::empty();
        let mut first = true;
        assert(s@ =~= "{"@ + join(parts, ","@));
        if let Some(page) = self.page {
            let mut part = String::from_str("\"page\":");
            push_decimal(&mut part, page as u64);
            push_item(&mut s, first, ",", part.as_str(), Ghost("{"@), Ghost(parts));
            proof {
                parts = parts.push(part@);
            }
            first = false;
        }
        if let Some(results) = self.results {
            let mut part = String::from_str("\"results\":");
            push_decimal(&mut part, results as u64);
            push_item(&mut s, first, ",", part.as_str(), Ghost("{"@), Ghost(parts));
            proof {
                parts = parts.push(part@);
            }
            first = false;
        }
        if let Some(sort) = &self.sort {
            let mut part = String::from_str("\"sort\":");
            push_json_string(&mut part, sort.as_str());
            push_item(&mut s, first, ",", part.as_str(), Ghost("{"@), Ghost(parts));
            proof {
                parts = parts.push(part@);
            }
            first = false;
        }
        if let Some(reverse) = self.reverse {
            let mut part = String::from_str("\"reverse\":");
            part.append(if reverse { "true" } else { "false" });
            push_item(&mut s, first, ",", part.as_str(), Ghost("{"@), Ghost(parts));
            proof {
                parts = parts.push(part@);
            }
        }
        s.append("}");
        assert(parts =~= options_parts(*self));
        s
    }
}

// ---------------------------------------------------------------------------
// Commands

/// The wire text of a login command, without the terminator.
pub open spec fn login_text(l: Login) -> Seq<char> {
    "login {\"protocol\":"@ + decimal(l.protocol as nat) + ",\"client\":"@ + json_string(
        l.client@,
    ) + ",\"clientver\":"@ + l.clientver@ + match l.creds {
        Some((user, password)) => ",\"username\":"@ + json_string(user@) + ",\"password\":"@
            + json_string(password@) + "}"@,
        None => "}"@,
    }
}

/// The login command, first of each session.
///
/// The client's name, the user name and the password are written as JSON
/// strings, escaped; the version is written as the number it holds.
#[derive(Clone, Debug)]
pub struct Login {
    /// The protocol version; the server knows 1.
    pub protocol: u8,
    /// The name of the client.
    pub client: String,
    /// The version of the client, as the decimal number it is sent as (`0.1`).
    pub clientver: String,
    /// User name and password, for a session of a user.
    pub creds: Option<(String, String)>,
}

impl Login {
    /// A login of this library as client, version `0.1` of protocol 1, with
    /// the given credentials.
    pub fn new(creds: Option<(String, String)>) -> (r: Self)
        ensures
            r.protocol == 1,
            r.client@ == "rusty"@,
            r.clientver@ == "0.1"@,
            r.creds == creds,
    {
        Login {
            protocol: 1,
            client: String::from_str("rusty"),
            clientver: String::from_str("0.1"),
            creds,
        }
    }

    /// The wire text (`login_text`), without the terminator.
    pub fn render(&self) -> (r: String)
        ensures
            r@ == login_text(*self),
    {
        let mut s = String::from_str("login {\"protocol\":");
        push_decimal(&mut s, self.protocol as u64);
        s.append(",\"client\":");
        push_json_string(&mut s, self.client.as_str());
        s.append(",\"clientver\":");
        s.append(self.clientver.as_str());
        match &self.creds {
            Some((user, password)) => {
                s.append(",\"username\":");
                push_json_string(&mut s, user.as_str());
                s.append(",\"password\":");
                push_json_string(&mut s, password.as_str());
                s.append("}");
            },
            None => {
                s.append("}");
            },
        }
        assert(s@ =~= login_text(*self));
        s
    }
}

impl Default for Login {
    /// `Login::new(None)`.
    fn default() -> (r: Self)
        ensures
            r.protocol == 1,
            r.client@ == "rusty"@,
            r.clientver@ == "0.1"@,
            r.creds is None,
    {
        Self::new(None)
    }
}

/// The wire text of a get command, without the terminator.
pub open spec fn get_text(g: Get) -> Seq<char> {
    "get "@ + g.kind@ + " "@ + flags_text(g.flags@) + " "@ + filters_text(g.filters@)
        + match g.options {
        Some(o) => " "@ + options_text(o),
        None => Seq::empty(),
    }
}

/// The get command: entities of one type, the parts that `flags` name, that
/// match `filters`.
#[derive(Clone, Debug)]
pub struct Get {
    /// The type of entity.
    pub kind: Type,
    /// The parts of each entity to send.
    pub flags: Flags,
    /// Which entities.
    pub filters: Filters,
    /// Paging and order.
    pub options: Option<Options>,
}

impl Get {
    /// The wire text (`get_text`), without the terminator.
    pub fn render(&self) -> (r: String)
        ensures
            r@ == get_text(*self),
    {
        let mut s = String::from_str("get ");
        s.append(self.kind.name());
        s.append(" ");
        let flags = self.flags.render();
        s.append(flags.as_str());
        s.append(" ");
        let filters = self.filters.render();
        s.append(filters.as_str());
        if let Some(options) = &self.options {
            s.append(" ");
            let o = options.render();
            s.append(o.as_str());
        }
        assert(s@ =~= get_text(*self));
        s
    }
}

/// The frame terminator, as a character.
pub open spec fn eot() -> char {
    '\u{4}'
}

/// The text of a request without its terminator.
pub open spec fn request_body(r: Request) -> Seq<char> {
    match r {
        Request::Login(l) => login_text(l),
        Request::Get(g) => get_text(g),
        Request::DBstats => "dbstats"@,
    }
}

/// The whole wire text of a request: its body and the terminator.
pub open spec fn request_text(r: Request) -> Seq<char> {
    request_body(r) + seq![eot()]
}

/// A request to the server.
#[derive(Clone, Debug)]
pub enum Request {
    /// Opens the session; answered by `ok`.
    Login(Login),
    /// Asks for entities; answered by `results`.
    Get(Get),
    /// Asks for the database statistics; answered by `dbstats`.
    DBstats,
}

impl Request {
    /// The whole wire text (`request_text`), terminator included.
    pub fn render(&self) -> (r: String)
        ensures
            r@ == request_text(*self),
    {
        let mut s = match self {
            Request::Login(login) => login.render(),
            Request::Get(get) => get.render(),
            Request::DBstats => String::from_str("dbstats"),
        };
        proof {
            reveal_strlit("\x04");
        }
        s.append("\x04");
        assert(s@ =~= request_text(*self));
        s
    }
}

impl From<Login> for Request {
    fn from(login: Login) -> (r: Request)
        ensures
            r == Request::Login(login),
    {
        Request::Login(login)
    }
}

impl vstd::std_specs::convert::FromSpecImpl<Login> for Request {
    open spec fn obeys_from_spec() -> bool {
        true
    }

    open spec fn from_spec(v: Login) -> Request {
        Request::Login(v)
    }
}

impl From<Get> for Request {
    fn from(get: Get) -> (r: Request)
        ensures
            r == Request::Get(get),
    {
        Request::Get(get)
    }
}

impl vstd::std_specs::convert::FromSpecImpl<Get> for Request {
    open spec fn obeys_from_spec() -> bool {
        true
    }

    open spec fn from_spec(v: Get) -> Request {
        Request::Get(v)
    }
}

} // verus!
