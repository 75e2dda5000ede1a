use vstd::prelude::*;

verus! {

/// `s` cut at every `sep`, as `str::split` cuts it: `k` separators give
/// `k + 1` pieces, empty ones included.
pub open spec fn split(s: Seq<char>, sep: char) -> Seq<Seq<char>>
    decreases s.len(),
{
    if s.len() == 0 {
        seq![Seq::empty()]
    } else {
        let r = split(s.drop_last(), sep);
        if s.last() == sep {
            r.push(Seq::empty())
        } else {
            r.update(r.len() - 1, r.last().push(s.last()))
        }
    }
}

proof fn lemma_split_nonempty(s: Seq<char>, sep: char)
    ensures
        split(s, sep).len() >= 1,
    decreases s.len(),
{
    if s.len() > 0 {
        lemma_split_nonempty(s.drop_last(), sep);
    }
}

/// The pieces of `s` between the separators `sep`.
pub fn split_text(s: &str, sep: char) -> (r: Vec<String>)
    ensures
        r@.map_values(|p: String| p@) == split(s@, sep),
{
    let n = s.unicode_len();
    let mut pieces: Vec<String> = Vec::new();
    let mut start: usize = 0;
    let mut i: usize = 0;
    proof {
        assert(s@.subrange(0, 0) =~= Seq::<char>::empty());
        assert(pieces@.map_values(|p: String| p@).push(s@.subrange(0, 0)) =~= split(
            s@.subrange(0, 0),
            sep,
        ));
    }
    while i < n
        invariant
            n == s@.len(),
            start <= i <= n,
            pieces@.map_values(|p: String| p@).push(s@.subrange(start as int, i as int)) == split(
                s@.subrange(0, i as int),
                sep,
            ),
        decreases n - i,
    {
        let c = s.get_char(i);
        let ghost old_pieces = pieces@.map_values(|p: String| p@);
        let ghost cur = s@.subrange(start as int, i as int);
        proof {
            assert(s@.subrange(0, i as int + 1).drop_last() =~= s@.subrange(0, i as int));
            assert(s@.subrange(0, i as int + 1).last() == c);
            lemma_split_nonempty(s@.subrange(0, i as int), sep);
        }
        if c == sep {
            let piece = s.substring_char(start, i).to_owned();
            pieces.push(piece);
            start = i + 1;
            proof {
                assert(pieces@.map_values(|p: String| p@) =~= old_pieces.push(cur));
                assert(s@.subrange(start as int, i as int + 1) =~= Seq::<char>::empty());
            }
        } else {
            proof {
                assert(s@.subrange(start as int, i as int + 1) =~= cur.push(c));
                assert(old_pieces.push(cur.push(c)) =~= old_pieces.push(cur).update(
                    old_pieces.len() as int,
                    cur.push(c),
                ));
            }
        }
        i = i + 1;
    }
    let last = s.substring_char(start, n).to_owned();
    let ghost before = pieces@.map_values(|p: String| p@);
    pieces.push(last);
    proof {
        assert(s@.subrange(0, n as int) =~= s@);
        assert(pieces@.map_values(|p: String| p@) =~= before.push(s@.subrange(start as int, n as int)));
    }
    pieces
}


pub open spec fn is_digit(c: char) -> bool {
    '0' <= c <= '9'
}

/// The number that a run of decimal digits spells.
pub open spec fn digits_value(d: Seq<char>) -> int
    decreases d.len(),
{
    if d.len() == 0 {
        0
    } else {
        digits_value(d.drop_last()) * 10 + (d.last() as int - '0' as int)
    }
}

/// `s` without one leading `+`.
pub open spec fn unsigned_part(s: Seq<char>) -> Seq<char> {
    if s.len() > 0 && s[0] == '+' {
        s.drop_first()
    } else {
        s
    }
}

pub open spec fn all_digits(d: Seq<char>) -> bool {
    forall|i: int| 0 <= i < d.len() ==> #[trigger] is_digit(d[i])
}

/// A port as `u16`'s `from_str` reads it: an optional `+`, then one or more
/// decimal digits whose value fits in 16 bits.
pub open spec fn port_of(s: Seq<char>) -> Option<u16> {
    let d = unsigned_part(s);
    if d.len() > 0 && all_digits(d) && digits_value(d) <= u16::MAX {
        Some(digits_value(d) as u16)
    } else {
        None
    }
}

/// Reads a port number.
pub fn parse_port(s: &str) -> (r: Option<u16>)
    ensures
        r == port_of(s@),
{
    let n = s.unicode_len();
    let mut i: usize = 0;
    if n > 0 && s.get_char(0) == '+' {
        i = 1;
    }
    let first = i;
    let ghost d = unsigned_part(s@);
    if first == n {
        return None;
    }
    let mut value: u32 = 0;
    let mut over = false;
    proof {
        assert(d =~= s@.subrange(first as int, n as int));
        assert(d.subrange(0, 0) =~= Seq::<char>::empty());
    }
    while i < n
        invariant
            first <= i <= n == s@.len(),
            d == s@.subrange(first as int, n as int),
            d == unsigned_part(s@),
            forall|j: int| 0 <= j < i - first ==> #[trigger] is_digit(d[j]),
            over ==> digits_value(d.subrange(0, i - first)) > u16::MAX,
            !over ==> value == digits_value(d.subrange(0, i - first)) && value <= u16::MAX,
        decreases n - i,
    {
        let c = s.get_char(i);
        let ghost k = i - first;
        proof {
            assert(d[k] == c);
            assert(d.subrange(0, k + 1).drop_last() =~= d.subrange(0, k));
        }
        if !('0' <= c && c <= '9') {
            proof {
                assert(!is_digit(d[k]));
            }
            return None;
        }
        let digit = (c as u32) - ('0' as u32);
        if !over {
            if value > 6553 || (value == 6553 && digit > 5) {
                over = true;
            } else {
                value = value * 10 + digit;
            }
        }
        i = i + 1;
    }
    proof {
        assert(d.subrange(0, n - first) =~= d);
    }
    if over {
        None
    } else {
        Some(value as u16)
    }
}

/// A seed peer: a host and a port.
#[derive(Debug, PartialEq, Eq)]
pub struct PeerAddr {
    pub host: String,
    pub port: u16,
}

/// Why an entry of the seed peer list was left out; each holds the entry.
#[derive(Debug, PartialEq, Eq)]
pub enum PeerSpecError {
    /// Host and port, but the port is not a 16-bit number.
    InvalidPort(String),
    /// Not of the form `host:port`.
    Malformed(String),
}

/// What one entry of the seed peer list reads as.
pub open spec fn peer_entry(e: Seq<char>) -> Result<(Seq<char>, u16), Seq<char>> {
    let parts = split(e, ':');
    if parts.len() == 2 && port_of(parts[1]) is Some {
        Ok((parts[0], port_of(parts[1]).unwrap()))
    } else {
        Err(e)
    }
}

/// An entry is one that `peer_entry` reads: a valid peer, or the rejected
/// entry with the reason for it.
pub open spec fn entry_matches(r: Result<PeerAddr, PeerSpecError>, e: Seq<char>) -> bool {
    match r {
        Ok(a) => peer_entry(e) == Ok::<(Seq<char>, u16), Seq<char>>((a.host@, a.port)),
        Err(PeerSpecError::InvalidPort(t)) => peer_entry(e) is Err && split(e, ':').len() == 2
            && t@ == e,
        Err(PeerSpecError::Malformed(t)) => split(e, ':').len() != 2 && t@ == e,
    }
}

/// Reads one entry of the seed peer list.
pub fn parse_peer(entry: String) -> (r: Result<PeerAddr, PeerSpecError>)
    ensures
        entry_matches(r, entry@),
{
    let parts = split_text(entry.as_str(), ':');
    proof {
        assert(parts@.map_values(|p: String| p@).len() == parts@.len());
    }
    if parts.len() != 2 {
        return Err(PeerSpecError::Malformed(entry));
    }
    proof {
        assert(parts@.map_values(|p: String| p@)[0] == parts@[0]@);
        assert(parts@.map_values(|p: String| p@)[1] == parts@[1]@);
    }
    match parse_port(parts[1].as_str()) {
        Some(port) => Ok(PeerAddr { host: parts[0].clone(), port }),
        None => Err(PeerSpecError::InvalidPort(entry)),
    }
}

/// Reads the comma-separated seed peer list `host:port,host:port,...`; an
/// empty list has no entries.
pub fn parse_peers(list: &str) -> (r: Vec<Result<PeerAddr, PeerSpecError>>)
    ensures
        list@.len() == 0 ==> r@.len() == 0,
        list@.len() > 0 ==> r@.len() == split(list@, ',').len() && forall|i: int|
            0 <= i < r@.len() ==> entry_matches(#[trigger] r@[i], split(list@, ',')[i]),
{
    let mut r: Vec<Result<PeerAddr, PeerSpecError>> = Vec::new();
    if list.is_empty() {
        return r;
    }
    let entries = split_text(list, ',');
    let ghost pieces = entries@.map_values(|p: String| p@);
    let mut i: usize = 0;
    while i < entries.len()
        invariant
            i <= entries@.len() == pieces.len(),
            pieces == split(list@, ','),
            pieces == entries@.map_values(|p: String| p@),
            r@.len() == i,
            forall|j: int| 0 <= j < i ==> entry_matches(#[trigger] r@[j], pieces[j]),
        decreases entries@.len() - i,
    {
        proof {
            assert(pieces[i as int] == entries@[i as int]@);
        }
        r.push(parse_peer(entries[i].clone()));
        i = i + 1;
    }
    r
}

} // verus!
