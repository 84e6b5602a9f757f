//! Formatting of a resolved record, and of a resolution failure, into
//! the user-visible reply text.
//!
//! A successful reply carries the IP address and then any of country,
//! city and ISP that the winning provider supplied, each on its own
//! line, in that order. A failed lookup formats into a single line
//! describing the error.

use vstd::prelude::*;
use vstd::string::*;
use crate::record::IpInfo;

verus! {

/// Number of line breaks in a text; a reply whose every line ends in a
/// break thus has exactly this many lines.
pub open spec fn newline_count(s: Seq<char>) -> nat
    decreases s.len(),
{
    if s.len() == 0 {
        0
    } else {
        newline_count(s.drop_last()) + (if s.last() == '\n' {
            1nat
        } else {
            0nat
        })
    }
}

/// A text free of line breaks, fit to stand inside one line.
pub open spec fn line_clean(s: Seq<char>) -> bool {
    forall|i: int| 0 <= i < s.len() ==> s[i] != '\n'
}

pub proof fn lemma_newline_count_concat(a: Seq<char>, b: Seq<char>)
    ensures
        newline_count(a + b) == newline_count(a) + newline_count(b),
    decreases b.len(),
{
    if b.len() == 0 {
        assert(a + b =~= a);
    } else {
        lemma_newline_count_concat(a, b.drop_last());
        assert((a + b).drop_last() =~= a + b.drop_last());
        assert((a + b).last() == b.last());
    }
}

pub proof fn lemma_newline_count_zero(s: Seq<char>)
    requires
        line_clean(s),
    ensures
        newline_count(s) == 0,
    decreases s.len(),
{
    if s.len() > 0 {
        assert(forall|i: int| 0 <= i < s.drop_last().len() ==> s.drop_last()[i] == s[i]);
        lemma_newline_count_zero(s.drop_last());
    }
}

pub open spec fn ip_line(ip: Seq<char>) -> Seq<char> {
    "你的真实公网IP地址是: "@ + ip + "\n"@
}

pub open spec fn country_line(c: Seq<char>) -> Seq<char> {
    "国家/地区: "@ + c + "\n"@
}

pub open spec fn city_line(c: Seq<char>) -> Seq<char> {
    "城市: "@ + c + "\n"@
}

pub open spec fn isp_line(s: Seq<char>) -> Seq<char> {
    "ISP: "@ + s + "\n"@
}

/// The whole successful reply: the IP line, then one line for each
/// optional field that is present, in the order country, city, ISP.
pub open spec fn reply_of(info: IpInfo) -> Seq<char> {
    ip_line(info.ip@) + (match info.country {
        Some(c) => country_line(c@),
        None => Seq::<char>::empty(),
    }) + (match info.city {
        Some(c) => city_line(c@),
        None => Seq::<char>::empty(),
    }) + (match info.isp {
        Some(s) => isp_line(s@),
        None => Seq::<char>::empty(),
    })
}

pub open spec fn error_reply_of(msg: Seq<char>) -> Seq<char> {
    "查询IP地址时出错: "@ + msg
}

/// Formats a resolved record into the reply text.
pub fn format_reply(info: &IpInfo) -> (r: String)
    ensures
        r@ == reply_of(*info),
{
    let mut r = String::from_str("你的真实公网IP地址是: ");
    r.append(info.ip.as_str());
    r.append("\n");
    match &info.country {
        Some(c) => {
            r.append("国家/地区: ");
            r.append(c.as_str());
            r.append("\n");
        },
        None => {},
    }
    match &info.city {
        Some(c) => {
            r.append("城市: ");
            r.append(c.as_str());
            r.append("\n");
        },
        None => {},
    }
    match &info.isp {
        Some(s) => {
            r.append("ISP: ");
            r.append(s.as_str());
            r.append("\n");
        },
        None => {},
    }
    assert(r@ =~= reply_of(*info));
    r
}

/// Formats a lookup failure into the single-line error reply.
pub fn format_error_reply(msg: &str) -> (r: String)
    ensures
        r@ == error_reply_of(msg@),
{
    let mut r = String::from_str("查询IP地址时出错: ");
    r.append(msg);
    r
}

/// The placeholder sent while the lookup is in flight; it is always
/// edited into either the data reply or the error reply.
pub fn processing_text() -> (r: &'static str)
    ensures
        r@ == "正在查询你的真实公网IP地址，请稍候..."@,
{
    "正在查询你的真实公网IP地址，请稍候..."
}

/// One line of label, content and line break, where the content holds
/// no break of its own, counts as exactly one line.
proof fn lemma_line_count(label: Seq<char>, content: Seq<char>)
    requires
        newline_count(label) == 0,
        line_clean(content),
    ensures
        newline_count(label + content + "\n"@) == 1,
{
    reveal_strlit("\n");
    assert(newline_count("\n"@) == 1) by {
        reveal_with_fuel(newline_count, 2);
        assert("\n"@.drop_last() =~= Seq::<char>::empty());
    };
    lemma_newline_count_zero(content);
    lemma_newline_count_concat(label, content);
    lemma_newline_count_concat(label + content, "\n"@);
}

/// A record with only the required IP field present formats into a
/// reply of exactly one line: no country, city or ISP line appears.
pub proof fn lemma_reply_single_line(info: IpInfo)
    requires
        info.country is None,
        info.city is None,
        info.isp is None,
        line_clean(info.ip@),
    ensures
        newline_count(reply_of(info)) == 1,
{
    reveal_strlit("你的真实公网IP地址是: ");
    assert(line_clean("你的真实公网IP地址是: "@));
    lemma_newline_count_zero("你的真实公网IP地址是: "@);
    lemma_line_count("你的真实公网IP地址是: "@, info.ip@);
    assert(reply_of(info) =~= ip_line(info.ip@));
    assert(ip_line(info.ip@) =~= "你的真实公网IP地址是: "@ + info.ip@ + "\n"@);
}

/// A record with all four fields present formats into a reply of
/// exactly four lines, in the order IP, country, city, ISP.
pub proof fn lemma_reply_four_lines(info: IpInfo)
    requires
        info.country is Some,
        info.city is Some,
        info.isp is Some,
        line_clean(info.ip@),
        line_clean(info.country.unwrap()@),
        line_clean(info.city.unwrap()@),
        line_clean(info.isp.unwrap()@),
    ensures
        newline_count(reply_of(info)) == 4,
        reply_of(info) == ip_line(info.ip@) + country_line(info.country.unwrap()@) + city_line(
            info.city.unwrap()@,
        ) + isp_line(info.isp.unwrap()@),
{
    reveal_strlit("你的真实公网IP地址是: ");
    reveal_strlit("国家/地区: ");
    reveal_strlit("城市: ");
    reveal_strlit("ISP: ");
    assert(line_clean("你的真实公网IP地址是: "@));
    assert(line_clean("国家/地区: "@));
    assert(line_clean("城市: "@));
    assert(line_clean("ISP: "@));
    lemma_newline_count_zero("你的真实公网IP地址是: "@);
    lemma_newline_count_zero("国家/地区: "@);
    lemma_newline_count_zero("城市: "@);
    lemma_newline_count_zero("ISP: "@);
    lemma_line_count("你的真实公网IP地址是: "@, info.ip@);
    lemma_line_count("国家/地区: "@, info.country.unwrap()@);
    lemma_line_count("城市: "@, info.city.unwrap()@);
    lemma_line_count("ISP: "@, info.isp.unwrap()@);
    let l1 = ip_line(info.ip@);
    let l2 = country_line(info.country.unwrap()@);
    let l3 = city_line(info.city.unwrap()@);
    let l4 = isp_line(info.isp.unwrap()@);
    assert(l1 =~= "你的真实公网IP地址是: "@ + info.ip@ + "\n"@);
    assert(l2 =~= "国家/地区: "@ + info.country.unwrap()@ + "\n"@);
    assert(l3 =~= "城市: "@ + info.city.unwrap()@ + "\n"@);
    assert(l4 =~= "ISP: "@ + info.isp.unwrap()@ + "\n"@);
    lemma_newline_count_concat(l1, l2);
    lemma_newline_count_concat(l1 + l2, l3);
    lemma_newline_count_concat(l1 + l2 + l3, l4);
}

} // verus!
