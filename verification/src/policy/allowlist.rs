//! Allowlist compilation and matching.
//!
//! Ext entries read `svc:type` or `svc:*`; Hot entries read
//! `svc_id:opcode` or `svc_id:*`, both numbers in decimal.

use vstd::prelude::*;
use vstd::string::StringExecFns;
use crate::error::WsPrismError;
use crate::strings::{find_char, first_index, parse_u8, parsed_u8, str_eq};

verus! {

/// Compiled allowlist rule for the Ext lane.
#[derive(Debug, Clone)]
pub struct ExtRule {
    /// Service name, matched exactly.
    pub svc: String,
    /// Message type, matched exactly; `None` matches every type.
    pub msg_type: Option<String>,
}

/// Mathematical content of an `ExtRule`.
pub struct ExtRuleView {
    pub svc: Seq<char>,
    pub msg_type: Option<Seq<char>>,
}

impl View for ExtRule {
    type V = ExtRuleView;

    open spec fn view(&self) -> ExtRuleView {
        ExtRuleView {
            svc: self.svc@,
            msg_type: match self.msg_type {
                Some(t) => Some(t@),
                None => None,
            },
        }
    }
}

/// Compiled allowlist rule for the Hot lane.
#[derive(Debug, Clone, Copy, PartialEq, Eq, Structural)]
pub struct HotRule {
    /// Service id, matched exactly.
    pub svc_id: u8,
    /// Opcode, matched exactly; `None` matches every opcode.
    pub opcode: Option<u8>,
}

/// The wildcard token.
pub open spec fn wildcard() -> Seq<char> {
    seq!['*']
}

/// The rule that an Ext entry denotes: the text before the first `:` is
/// the service, the text after it the type or the wildcard. An entry
/// without a `:` denotes nothing.
pub open spec fn ext_rule_of(s: Seq<char>) -> Option<ExtRuleView> {
    let i = first_index(s, ':');
    if i >= s.len() {
        None
    } else {
        let ty = s.skip(i + 1);
        Some(ExtRuleView { svc: s.take(i), msg_type: if ty == wildcard() { None } else { Some(ty) } })
    }
}

/// What a Hot entry denotes.
pub enum HotEntry {
    /// A rule.
    Rule(HotRule),
    /// The entry has no `:`.
    NoSeparator,
    /// The text before the `:` is not a `u8`; it is carried along.
    BadSvcId(Seq<char>),
    /// The text after the `:` is neither `*` nor a `u8`; it is carried along.
    BadOpcode(Seq<char>),
}

/// The meaning of a Hot entry, checked left to right.
pub open spec fn hot_entry_of(s: Seq<char>) -> HotEntry {
    let i = first_index(s, ':');
    if i >= s.len() {
        HotEntry::NoSeparator
    } else {
        let id = s.take(i);
        let op = s.skip(i + 1);
        match parsed_u8(id) {
            None => HotEntry::BadSvcId(id),
            Some(svc_id) => if op == wildcard() {
                HotEntry::Rule(HotRule { svc_id, opcode: None })
            } else {
                match parsed_u8(op) {
                    None => HotEntry::BadOpcode(op),
                    Some(o) => HotEntry::Rule(HotRule { svc_id, opcode: Some(o) }),
                }
            },
        }
    }
}

/// Message of the error that a malformed Ext entry raises.
pub open spec fn ext_entry_error(s: Seq<char>) -> Seq<char> {
    "invalid ext_allowlist entry: "@ + s + " (expected svc:type)"@
}

/// Message of the error that a malformed Hot entry raises; empty for a
/// well-formed one.
pub open spec fn hot_entry_error(s: Seq<char>) -> Seq<char> {
    match hot_entry_of(s) {
        HotEntry::Rule(_) => Seq::empty(),
        HotEntry::NoSeparator => "invalid hot_allowlist entry: "@ + s
            + " (expected svc_id:opcode)"@,
        HotEntry::BadSvcId(id) => "invalid hot_allowlist svc_id: "@ + id,
        HotEntry::BadOpcode(op) => "invalid hot_allowlist opcode: "@ + op,
    }
}

/// Whether `e` reports the first malformed entry of the Ext list `raw`.
pub open spec fn ext_compile_error(raw: Seq<String>, e: WsPrismError) -> bool {
    exists|i: int|
        0 <= i < raw.len() && ext_rule_of(#[trigger] raw[i]@) is None && (forall|j: int|
            0 <= j < i ==> ext_rule_of(#[trigger] raw[j]@) is Some) && e.is_bad_request(
            ext_entry_error(raw[i]@),
        )
}

/// Whether `e` reports the first malformed entry of the Hot list `raw`.
pub open spec fn hot_compile_error(raw: Seq<String>, e: WsPrismError) -> bool {
    exists|i: int|
        0 <= i < raw.len() && !(hot_entry_of(#[trigger] raw[i]@) is Rule) && (forall|j: int|
            0 <= j < i ==> hot_entry_of(#[trigger] raw[j]@) is Rule) && e.is_bad_request(
            hot_entry_error(raw[i]@),
        )
}

/// Compile one Ext entry.
pub fn compile_ext_rule(s: &str) -> (res: Result<ExtRule, WsPrismError>)
    ensures
        match ext_rule_of(s@) {
            Some(r) => res matches Ok(rule) && rule@ == r,
            None => res matches Err(e) && e.is_bad_request(ext_entry_error(s@)),
        },
{
    let n = s.unicode_len();
    let i = find_char(s, ':');
    if i >= n {
        let mut m = "invalid ext_allowlist entry: ".to_owned();
        m.append(s);
        m.append(" (expected svc:type)");
        return Err(WsPrismError::BadRequest(m));
    }
    let svc = s.substring_char(0, i).to_owned();
    let ty = s.substring_char(i + 1, n);
    proof {
        reveal_strlit("*");
        assert("*"@ =~= wildcard());
    }
    let msg_type = if str_eq(ty, "*") {
        None
    } else {
        Some(ty.to_owned())
    };
    Ok(ExtRule { svc, msg_type })
}

/// Compile one Hot entry.
pub fn compile_hot_rule(s: &str) -> (res: Result<HotRule, WsPrismError>)
    ensures
        match hot_entry_of(s@) {
            HotEntry::Rule(r) => res == Ok::<HotRule, WsPrismError>(r),
            _ => res matches Err(e) && e.is_bad_request(hot_entry_error(s@)),
        },
{
    let n = s.unicode_len();
    let i = find_char(s, ':');
    if i >= n {
        let mut m = "invalid hot_allowlist entry: ".to_owned();
        m.append(s);
        m.append(" (expected svc_id:opcode)");
        return Err(WsPrismError::BadRequest(m));
    }
    let id = s.substring_char(0, i);
    let op = s.substring_char(i + 1, n);
    let svc_id = match parse_u8(id) {
        Some(x) => x,
        None => {
            let mut m = "invalid hot_allowlist svc_id: ".to_owned();
            m.append(id);
            return Err(WsPrismError::BadRequest(m));
        },
    };
    proof {
        reveal_strlit("*");
        assert("*"@ =~= wildcard());
    }
    if str_eq(op, "*") {
        return Ok(HotRule { svc_id, opcode: None });
    }
    match parse_u8(op) {
        Some(o) => Ok(HotRule { svc_id, opcode: Some(o) }),
        None => {
            let mut m = "invalid hot_allowlist opcode: ".to_owned();
            m.append(op);
            Err(WsPrismError::BadRequest(m))
        },
    }
}

/// Compile every Ext entry, in order. The first malformed entry decides
/// the error; otherwise rule `i` is the one that entry `i` denotes.
pub fn compile_ext_rules(raw: &[String]) -> (res: Result<Vec<ExtRule>, WsPrismError>)
    ensures
        match res {
            Ok(rules) => rules.len() == raw.len() && forall|i: int|
                0 <= i < raw.len() ==> ext_rule_of(#[trigger] raw[i]@) == Some(rules[i]@),
            Err(e) => ext_compile_error(raw@, e),
        },
{
    let mut out: Vec<ExtRule> = Vec::new();
    let mut k: usize = 0;
    while k < raw.len()
        invariant
            k <= raw.len(),
            out.len() == k,
            forall|i: int| 0 <= i < k ==> ext_rule_of(#[trigger] raw[i]@) == Some(out[i]@),
        decreases raw.len() - k,
    {
        match compile_ext_rule(raw[k].as_str()) {
            Ok(rule) => {
                out.push(rule);
            },
            Err(e) => {
                assert(ext_rule_of(raw[k as int]@) is None);
                return Err(e);
            },
        }
        k += 1;
    }
    Ok(out)
}

/// Compile every Hot entry, in order. The first malformed entry decides
/// the error; otherwise rule `i` is the one that entry `i` denotes.
pub fn compile_hot_rules(raw: &[String]) -> (res: Result<Vec<HotRule>, WsPrismError>)
    ensures
        match res {
            Ok(rules) => rules.len() == raw.len() && forall|i: int|
                0 <= i < raw.len() ==> hot_entry_of(#[trigger] raw[i]@) == HotEntry::Rule(
                    rules[i],
                ),
            Err(e) => hot_compile_error(raw@, e),
        },
{
    let mut out: Vec<HotRule> = Vec::new();
    let mut k: usize = 0;
    while k < raw.len()
        invariant
            k <= raw.len(),
            out.len() == k,
            forall|i: int|
                0 <= i < k ==> hot_entry_of(#[trigger] raw[i]@) == HotEntry::Rule(out[i]),
        decreases raw.len() - k,
    {
        match compile_hot_rule(raw[k].as_str()) {
            Ok(rule) => {
                out.push(rule);
            },
            Err(e) => {
                assert(!(hot_entry_of(raw[k as int]@) is Rule));
                return Err(e);
            },
        }
        k += 1;
    }
    Ok(out)
}

/// Whether `rule` admits the pair `(svc, msg_type)`.
pub open spec fn ext_rule_matches(rule: ExtRuleView, svc: Seq<char>, msg_type: Seq<char>) -> bool {
    rule.svc == svc && match rule.msg_type {
        None => true,
        Some(t) => t == msg_type,
    }
}

/// Whether `rule` admits the pair `(svc_id, opcode)`.
pub open spec fn hot_rule_matches(rule: HotRule, svc_id: u8, opcode: u8) -> bool {
    rule.svc_id == svc_id && match rule.opcode {
        None => true,
        Some(op) => op == opcode,
    }
}

/// Whether some rule of `rules` admits `(svc, msg_type)`.
pub open spec fn ext_allowed(rules: Seq<ExtRule>, svc: Seq<char>, msg_type: Seq<char>) -> bool {
    exists|i: int| 0 <= i < rules.len() && ext_rule_matches(#[trigger] rules[i]@, svc, msg_type)
}

/// Whether some rule of `rules` admits `(svc_id, opcode)`.
pub open spec fn hot_allowed(rules: Seq<HotRule>, svc_id: u8, opcode: u8) -> bool {
    exists|i: int| 0 <= i < rules.len() && hot_rule_matches(#[trigger] rules[i], svc_id, opcode)
}

/// Ext allowlist check: some rule names `svc` and either `msg_type` or the
/// wildcard.
pub fn is_ext_allowed(rules: &[ExtRule], svc: &str, msg_type: &str) -> (b: bool)
    ensures
        b == ext_allowed(rules@, svc@, msg_type@),
{
    let mut k: usize = 0;
    while k < rules.len()
        invariant
            k <= rules.len(),
            forall|i: int| 0 <= i < k ==> !ext_rule_matches(#[trigger] rules[i]@, svc@, msg_type@),
        decreases rules.len() - k,
    {
        let r = &rules[k];
        if str_eq(r.svc.as_str(), svc) {
            let hit = match &r.msg_type {
                None => true,
                Some(t) => str_eq(t.as_str(), msg_type),
            };
            if hit {
                assert(ext_rule_matches(rules[k as int]@, svc@, msg_type@));
                return true;
            }
        }
        k += 1;
    }
    false
}

/// Hot allowlist check: some rule names `svc_id` and either `opcode` or the
/// wildcard.
pub fn is_hot_allowed(rules: &[HotRule], svc_id: u8, opcode: u8) -> (b: bool)
    ensures
        b == hot_allowed(rules@, svc_id, opcode),
{
    let mut k: usize = 0;
    while k < rules.len()
        invariant
            k <= rules.len(),
            forall|i: int| 0 <= i < k ==> !hot_rule_matches(#[trigger] rules[i], svc_id, opcode),
        decreases rules.len() - k,
    {
        let r = &rules[k];
        if r.svc_id == svc_id {
            let hit = match r.opcode {
                None => true,
                Some(op) => op == opcode,
            };
            if hit {
                assert(hot_rule_matches(rules[k as int], svc_id, opcode));
                return true;
            }
        }
        k += 1;
    }
    false
}

} // verus!
