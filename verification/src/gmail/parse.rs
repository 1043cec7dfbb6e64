use vstd::prelude::*;

verus! {

/// An ASCII decimal digit.
pub open spec fn is_digit(c: char) -> bool {
    '0' <= c && c <= '9'
}

/// Every character of `s` is a decimal digit.
pub open spec fn all_digits(s: Seq<char>) -> bool {
    forall|i: int| 0 <= i < s.len() ==> #[trigger] is_digit(s[i])
}

/// The number that the decimal digits `s` denote (most significant first).
pub open spec fn digits_value(s: Seq<char>) -> int
    decreases s.len(),
{
    if s.len() == 0 {
        0
    } else {
        digits_value(s.drop_last()) * 10 + (s.last() as int - '0' as int)
    }
}

/// The digits of an unsigned decimal literal: one leading `+` is allowed.
pub open spec fn unsigned_digits(s: Seq<char>) -> Seq<char> {
    if s.len() > 0 && s[0] == '+' {
        s.drop_first()
    } else {
        s
    }
}

/// What parsing `s` as a `usize` gives, as the standard library does it:
/// an optional `+`, then one or more ASCII digits, whose value fits in a `usize`.
pub open spec fn spec_parse_usize(s: Seq<char>) -> Option<usize> {
    let d = unsigned_digits(s);
    if d.len() > 0 && all_digits(d) && digits_value(d) <= usize::MAX {
        Some(digits_value(d) as usize)
    } else {
        None
    }
}

/// A longer prefix of a digit string never denotes a smaller number.
pub proof fn lemma_digits_value_monotone(s: Seq<char>, j: int, k: int)
    requires
        all_digits(s),
        0 <= j <= k <= s.len(),
    ensures
        0 <= digits_value(s.take(j)) <= digits_value(s.take(k)),
    decreases k - j,
{
    if j < k {
        lemma_digits_value_monotone(s, j, k - 1);
        assert(s.take(k).drop_last() =~= s.take(k - 1));
        assert(is_digit(s[k - 1]));
    } else {
        lemma_digits_value_nonneg(s.take(j));
    }
}

/// A digit string denotes a non-negative number.
pub proof fn lemma_digits_value_nonneg(s: Seq<char>)
    requires
        all_digits(s),
    ensures
        digits_value(s) >= 0,
    decreases s.len(),
{
    if s.len() > 0 {
        assert(is_digit(s.last()));
        lemma_digits_value_nonneg(s.drop_last());
    }
}

/// The digit character for a value below ten.
pub open spec fn digit_char(d: nat) -> char {
    if d == 0 {
        '0'
    } else if d == 1 {
        '1'
    } else if d == 2 {
        '2'
    } else if d == 3 {
        '3'
    } else if d == 4 {
        '4'
    } else if d == 5 {
        '5'
    } else if d == 6 {
        '6'
    } else if d == 7 {
        '7'
    } else if d == 8 {
        '8'
    } else {
        '9'
    }
}

/// The usual decimal writing of `n`: no sign, no leading zeros.
pub open spec fn decimal_digits(n: nat) -> Seq<char>
    decreases n,
{
    if n < 10 {
        seq![digit_char(n)]
    } else {
        decimal_digits(n / 10).push(digit_char(n % 10))
    }
}

proof fn lemma_decimal_digits(n: nat)
    ensures
        decimal_digits(n).len() > 0,
        all_digits(decimal_digits(n)),
        digits_value(decimal_digits(n)) == n,
    decreases n,
{
    let d = n % 10;
    assert(d < 10);
    assert(is_digit(digit_char(d)) && digit_char(d) as int - '0' as int == d);
    if n < 10 {
        let s = decimal_digits(n);
        assert(s.drop_last() =~= Seq::<char>::empty());
        assert(digits_value(s.drop_last()) == 0);
    } else {
        lemma_decimal_digits(n / 10);
        let s = decimal_digits(n);
        assert(s.drop_last() =~= decimal_digits(n / 10));
        assert(s.last() == digit_char(d));
        assert forall|i: int| 0 <= i < s.len() implies #[trigger] is_digit(s[i]) by {
            if i < s.len() - 1 {
                assert(s[i] == decimal_digits(n / 10)[i]);
            }
        }
        assert(n == (n / 10) * 10 + n % 10);
    }
}

/// Every `usize` written in decimal reads back as itself.
pub proof fn parse_reads_decimal_writing(v: usize)
    ensures
        spec_parse_usize(decimal_digits(v as nat)) == Some(v),
{
    lemma_decimal_digits(v as nat);
    let s = decimal_digits(v as nat);
    assert(is_digit(s[0]));
    assert(unsigned_digits(s) == s);
}

/// A leading `+` does not change the number read.
pub proof fn parse_ignores_one_plus_sign(v: usize)
    ensures
        spec_parse_usize(seq!['+'] + decimal_digits(v as nat)) == Some(v),
{
    lemma_decimal_digits(v as nat);
    let s = decimal_digits(v as nat);
    assert((seq!['+'] + s).drop_first() =~= s);
}

/// Parses a decimal `usize` the way `str::parse::<usize>` does.
pub fn parse_usize(s: &str) -> (r: Option<usize>)
    ensures
        r == spec_parse_usize(s@),
{
    broadcast use vstd::string::is_ascii_spec_bytes;

    if !s.is_ascii() {
        proof {
            let k = choose|k: int| 0 <= k < s@.len() && !('\0' <= #[trigger] s@[k] <= '\u{7f}');
            let d = unsigned_digits(s@);
            if d.len() > 0 && all_digits(d) {
                if s@.len() > 0 && s@[0] == '+' {
                    assert(k != 0);
                    assert(d[k - 1] == s@[k]);
                    assert(is_digit(d[k - 1]));
                } else {
                    assert(is_digit(d[k]));
                }
            }
        }
        return None;
    }
    let bytes = s.as_bytes();
    let n = bytes.len();
    let ghost chars = s@;
    assert(bytes@ =~= Seq::new(chars.len(), |j: int| chars[j] as u8));
    let mut start: usize = 0;
    // 43 is '+'
    if n > 0 && bytes[0] == 43u8 {
        start = 1;
    }
    let ghost d = unsigned_digits(chars);
    assert(d =~= chars.subrange(start as int, chars.len() as int));
    if start == n {
        return None;
    }
    let mut i: usize = start;
    let mut acc: usize = 0;
    while i < n
        invariant
            bytes@ =~= Seq::new(chars.len(), |j: int| chars[j] as u8),
            vstd::utf8::is_ascii_chars(chars),
            chars == s@,
            n == bytes@.len(),
            n == chars.len(),
            start <= i <= n,
            d =~= chars.subrange(start as int, chars.len() as int),
            d == unsigned_digits(chars),
            all_digits(d.take(i - start)),
            acc as int == digits_value(d.take(i - start)),
        decreases n - i,
    {
        let b = bytes[i];
        let ghost c = chars[i as int];
        assert(c as u8 == b);
        assert('\0' <= c <= '\u{7f}');
        assert(d[i - start] == c);
        // 48 and 57 are '0' and '9'
        if b < 48u8 || b > 57u8 {
            assert(!is_digit(c));
            assert(!all_digits(d));
            return None;
        }
        assert(is_digit(c));
        let dig: usize = (b - 48u8) as usize;
        assert(dig as int == c as int - '0' as int);
        assert(d.take(i - start + 1).drop_last() =~= d.take(i - start));
        if acc > (usize::MAX - dig) / 10 {
            proof {
                if all_digits(d) {
                    lemma_digits_value_monotone(d, i - start + 1, d.len() as int);
                    assert(d.take(d.len() as int) =~= d);
                }
            }
            return None;
        }
        acc = acc * 10 + dig;
        i = i + 1;
    }
    assert(d.take(i - start) =~= d);
    Some(acc)
}


/// Local name of the Atom feed element that carries the number of unread mails.
pub const FULLCOUNT_TAG: &'static str = "fullcount";

/// One node of a parsed XML document, reduced to what the count lookup reads:
/// whether it is an element, its local tag name (empty for other nodes) and
/// the text the XML reader reports for it.
#[derive(Debug, Clone)]
pub struct XmlNode {
    pub is_element: bool,
    pub local_name: String,
    pub text: Option<String>,
}

impl View for XmlNode {
    type V = (bool, Seq<char>, Option<Seq<char>>);

    open spec fn view(&self) -> (bool, Seq<char>, Option<Seq<char>>) {
        (self.is_element, self.local_name@, self.text.deep_view())
    }
}

/// The nodes of the document that `xml` holds, in document order (the
/// document root first), or `None` where `xml` is not a well-formed document.
pub uninterp spec fn xml_document_nodes(xml: Seq<char>) -> Option<Seq<(bool, Seq<char>, Option<Seq<char>>)>>;

#[verifier::external_type_specification]
#[verifier::external_body]
pub struct ExXmlError(roxmltree::Error);

/// Parses `xml` with `roxmltree::Document::parse` and lists its descendants
/// (`Document::descendants`) as plain values. The contract claims that the
/// outcome depends on the text alone: an error exactly when the document is
/// rejected, and otherwise the node list that `xml_document_nodes` names.
#[verifier::external_body]
fn parse_xml_nodes(xml: &str) -> (r: Result<Vec<XmlNode>, roxmltree::Error>)
    ensures
        r is Ok <==> xml_document_nodes(xml@) is Some,
        r matches Ok(nodes) ==> xml_document_nodes(xml@) == Some(
            nodes@.map_values(|n: XmlNode| n@),
        ),
{
    let doc = roxmltree::Document::parse(xml)?;
    let nodes = doc.descendants().map(|n| XmlNode {
        is_element: n.is_element(),
        local_name: n.tag_name().name().to_string(),
        text: n.text().map(|s| s.to_string()),
    }).collect();
    Ok(nodes)
}

/// A node is the unread-count element.
pub open spec fn is_fullcount(node: (bool, Seq<char>, Option<Seq<char>>)) -> bool {
    node.0 && node.1 == FULLCOUNT_TAG@
}

/// The text of the first unread-count element, if the document has one.
pub open spec fn first_fullcount_text(nodes: Seq<(bool, Seq<char>, Option<Seq<char>>)>) -> Option<
    Option<Seq<char>>,
>
    decreases nodes.len(),
{
    if nodes.len() == 0 {
        None
    } else if is_fullcount(nodes[0]) {
        Some(nodes[0].2)
    } else {
        first_fullcount_text(nodes.drop_first())
    }
}

/// The count that an element's text stands for: its value as a `usize`, and 0
/// where it has no text or the text is not such a number.
pub open spec fn count_of_text(text: Option<Seq<char>>) -> usize {
    match text {
        None => 0,
        Some(t) => match spec_parse_usize(t) {
            Some(v) => v,
            None => 0,
        },
    }
}

/// The unread count that a node list gives, or `None` where no element is the
/// unread-count element.
pub open spec fn spec_unread_count(nodes: Seq<(bool, Seq<char>, Option<Seq<char>>)>) -> Option<
    usize,
> {
    match first_fullcount_text(nodes) {
        None => None,
        Some(text) => Some(count_of_text(text)),
    }
}

/// Why no unread count could be read from a feed.
#[derive(Debug)]
pub enum UnreadCountError {
    /// The feed is not a well-formed XML document.
    Xml(roxmltree::Error),
    /// The document has no `<fullcount>` element.
    MissingFullCount,
}

/// Reads the unread count from the nodes of a parsed feed: the first element
/// named `fullcount` decides.
pub fn unread_count_in_nodes(nodes: &Vec<XmlNode>) -> (r: Option<usize>)
    ensures
        r == spec_unread_count(nodes@.map_values(|n: XmlNode| n@)),
{
    let ghost all = nodes@.map_values(|n: XmlNode| n@);
    let tag = FULLCOUNT_TAG.to_owned();
    assert(all.skip(0) =~= all);
    let mut i: usize = 0;
    while i < nodes.len()
        invariant
            all == nodes@.map_values(|n: XmlNode| n@),
            tag@ == FULLCOUNT_TAG@,
            0 <= i <= nodes.len(),
            first_fullcount_text(all) == first_fullcount_text(all.skip(i as int)),
        decreases nodes.len() - i,
    {
        let node = &nodes[i];
        assert(all.skip(i as int)[0] == node@);
        assert(all.skip(i as int).drop_first() =~= all.skip(i + 1));
        if node.is_element && node.local_name == tag {
            let count = match &node.text {
                None => 0,
                Some(text) => match parse_usize(text.as_str()) {
                    Some(v) => v,
                    None => 0,
                },
            };
            return Some(count);
        }
        i = i + 1;
    }
    assert(all.skip(i as int).len() == 0);
    None
}

/// The count read from an element's text is the number that text denotes,
/// whenever it denotes a `usize`.
pub proof fn count_is_value_of_text(t: Seq<char>, v: usize)
    requires
        spec_parse_usize(t) == Some(v),
    ensures
        count_of_text(Some(t)) == v,
{
}

/// Any `usize` written in decimal as the text of the unread-count element is
/// read back exactly.
pub proof fn count_reads_decimal_writing(v: usize)
    ensures
        count_of_text(Some(decimal_digits(v as nat))) == v,
{
    parse_reads_decimal_writing(v);
}

/// Where the first unread-count element of a feed holds the decimal writing
/// of `v`, the unread count read from the feed is `v`.
pub proof fn unread_count_is_first_fullcount_value(
    nodes: Seq<(bool, Seq<char>, Option<Seq<char>>)>,
    v: usize,
)
    requires
        first_fullcount_text(nodes) == Some(Some(decimal_digits(v as nat))),
    ensures
        spec_unread_count(nodes) == Some(v),
{
    count_reads_decimal_writing(v);
}

/// Reads the number of unread mails from a Gmail Atom feed: the text of its
/// first `<fullcount>` element, read as a decimal number, or 0 where that text
/// is missing or no such number.
pub fn get_unread_count(xml_text: &str) -> (r: Result<usize, UnreadCountError>)
    ensures
        r matches Err(UnreadCountError::Xml(_)) <==> xml_document_nodes(xml_text@) is None,
        xml_document_nodes(xml_text@) matches Some(nodes) ==> match spec_unread_count(nodes) {
            Some(count) => r == Ok::<usize, UnreadCountError>(count),
            None => r is Err && r->Err_0 is MissingFullCount,
        },
{
    let nodes = match parse_xml_nodes(xml_text) {
        Ok(nodes) => nodes,
        Err(e) => return Err(UnreadCountError::Xml(e)),
    };
    match unread_count_in_nodes(&nodes) {
        Some(count) => Ok(count),
        None => Err(UnreadCountError::MissingFullCount),
    }
}

} // verus!
