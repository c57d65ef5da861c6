//! Identifier generation and validation: deterministic entity ids derived
//! from counters, and the agent-name rules.

use vstd::prelude::*;

use crate::errors::ContractError;
use crate::text::{
    dec_of, dec_u64, hex_of, hex_u64, is_dec_digit, lemma_concat_parts, lemma_digit_run,
    lemma_digit_tail,
};

verus! {

/// One step of the owner-identity tag: shift in one character, wrapping at
/// 64 bits.
pub open spec fn tag_step(acc: u64, c: char) -> u64 {
    vstd::wrapping::u64_specs::wrapping_add(
        vstd::wrapping::u64_specs::wrapping_mul(acc, 256),
        (((c as u32) % 256) as u64),
    )
}

pub open spec fn addr_tag_rec(s: Seq<char>, n: int) -> u64
    decreases n,
{
    if n <= 0 {
        0
    } else {
        tag_step(addr_tag_rec(s, n - 1), s[n - 1])
    }
}

/// The 64-bit tag of an owner identity: a byte-wise fold of its first eight
/// characters.
pub open spec fn addr_tag(s: Seq<char>) -> u64 {
    addr_tag_rec(
        s,
        if s.len() < 8 {
            s.len() as int
        } else {
            8
        },
    )
}

pub open spec fn agent_id_text(tag: u64, n: nat) -> Seq<char> {
    "agent_"@ + hex_of(tag as nat) + "_"@ + dec_of(n)
}

/// The four-character window of an agent id used inside service ids.
pub open spec fn id_window(s: Seq<char>) -> Seq<char> {
    s.subrange(
        6,
        if s.len() < 10 {
            s.len() as int
        } else {
            10
        },
    )
}

pub open spec fn service_id_text(req: Seq<char>, prov: Seq<char>, n: nat) -> Seq<char> {
    "service_"@ + id_window(req) + "_"@ + id_window(prov) + "_"@ + dec_of(n)
}

pub open spec fn message_id_text(n: nat) -> Seq<char> {
    "msg_"@ + dec_of(n)
}

pub open spec fn po_id_text(n: nat, t: nat) -> Seq<char> {
    "PO-"@ + dec_of(n) + "-"@ + dec_of(t)
}

pub open spec fn invoice_id_text(n: nat, t: nat) -> Seq<char> {
    "INV-"@ + dec_of(n) + "-"@ + dec_of(t)
}

/// Generate a unique agent id from the owner identity and a counter.
pub fn generate_agent_id(owner: &String, counter: u64) -> (r: String)
    ensures
        r@ == agent_id_text(addr_tag(owner@), counter as nat),
{
    let ulen = owner.as_str().unicode_len();
    let k: usize = if ulen < 8 {
        ulen
    } else {
        8
    };
    let mut acc: u64 = 0;
    let mut i: usize = 0;
    while i < k
        invariant
            i <= k,
            k == if owner@.len() < 8 {
                owner@.len() as int
            } else {
                8
            },
            acc == addr_tag_rec(owner@, i as int),
        decreases k - i,
    {
        let c = owner.as_str().get_char(i);
        let b: u64 = ((c as u32) % 256) as u64;
        acc = acc.wrapping_mul(256).wrapping_add(b);
        i = i + 1;
    }
    let mut s = String::from_str("agent_");
    let h = hex_u64(acc);
    s.append(h.as_str());
    s.append("_");
    let d = dec_u64(counter);
    s.append(d.as_str());
    proof {
        assert(s@ =~= agent_id_text(addr_tag(owner@), counter as nat));
    }
    s
}

/// Generate a service id from the two participating agent ids and a counter.
pub fn generate_service_id(requester_id: &str, provider_id: &str, counter: u64) -> (r: String)
    requires
        requester_id@.len() >= 6,
        provider_id@.len() >= 6,
    ensures
        r@ == service_id_text(requester_id@, provider_id@, counter as nat),
{
    let rlen = requester_id.unicode_len();
    let plen = provider_id.unicode_len();
    let rto: usize = if rlen < 10 {
        rlen
    } else {
        10
    };
    let pto: usize = if plen < 10 {
        plen
    } else {
        10
    };
    let mut s = String::from_str("service_");
    s.append(requester_id.substring_char(6, rto));
    s.append("_");
    s.append(provider_id.substring_char(6, pto));
    s.append("_");
    let d = dec_u64(counter);
    s.append(d.as_str());
    proof {
        assert(s@ =~= service_id_text(requester_id@, provider_id@, counter as nat));
    }
    s
}

pub fn message_id_string(n: u64) -> (r: String)
    ensures
        r@ == message_id_text(n as nat),
{
    let mut s = String::from_str("msg_");
    let d = dec_u64(n);
    s.append(d.as_str());
    proof {
        assert(s@ =~= message_id_text(n as nat));
    }
    s
}

pub fn po_id_string(n: u64, t: u64) -> (r: String)
    ensures
        r@ == po_id_text(n as nat, t as nat),
{
    let mut s = String::from_str("PO-");
    let d = dec_u64(n);
    s.append(d.as_str());
    s.append("-");
    let e = dec_u64(t);
    s.append(e.as_str());
    proof {
        assert(s@ =~= po_id_text(n as nat, t as nat));
    }
    s
}

pub fn invoice_id_string(n: u64, t: u64) -> (r: String)
    ensures
        r@ == invoice_id_text(n as nat, t as nat),
{
    let mut s = String::from_str("INV-");
    let d = dec_u64(n);
    s.append(d.as_str());
    s.append("-");
    let e = dec_u64(t);
    s.append(e.as_str());
    proof {
        assert(s@ =~= invoice_id_text(n as nat, t as nat));
    }
    s
}

proof fn lemma_tail_sep(p: Seq<char>, sep: char)
    requires
        !is_dec_digit(sep),
    ensures
        (p + seq![sep]).len() == p.len() + 1,
        (p + seq![sep]).last() == sep,
        !is_dec_digit((p + seq![sep]).last()),
{
    assert((p + seq![sep])[p.len() as int] == sep);
}

/// Two agent ids with the same text carry the same counter.
pub proof fn lemma_agent_id_counter(t1: u64, n1: nat, t2: u64, n2: nat)
    requires
        agent_id_text(t1, n1) == agent_id_text(t2, n2),
    ensures
        n1 == n2,
{
    reveal_strlit("_");
    let p1 = "agent_"@ + hex_of(t1 as nat) + "_"@;
    let p2 = "agent_"@ + hex_of(t2 as nat) + "_"@;
    assert(p1 =~= ("agent_"@ + hex_of(t1 as nat)) + seq!['_']) by {
        assert("_"@ =~= seq!['_']);
    }
    assert(p2 =~= ("agent_"@ + hex_of(t2 as nat)) + seq!['_']) by {
        assert("_"@ =~= seq!['_']);
    }
    lemma_tail_sep("agent_"@ + hex_of(t1 as nat), '_');
    lemma_tail_sep("agent_"@ + hex_of(t2 as nat), '_');
    lemma_digit_tail(p1, n1, p2, n2);
}

/// Two service ids with the same text carry the same counter.
pub proof fn lemma_service_id_counter(
    a1: Seq<char>,
    b1: Seq<char>,
    n1: nat,
    a2: Seq<char>,
    b2: Seq<char>,
    n2: nat,
)
    requires
        service_id_text(a1, b1, n1) == service_id_text(a2, b2, n2),
    ensures
        n1 == n2,
{
    reveal_strlit("_");
    let p1 = "service_"@ + id_window(a1) + "_"@ + id_window(b1) + "_"@;
    let p2 = "service_"@ + id_window(a2) + "_"@ + id_window(b2) + "_"@;
    assert(p1 =~= ("service_"@ + id_window(a1) + "_"@ + id_window(b1)) + seq!['_']) by {
        assert("_"@ =~= seq!['_']);
    }
    assert(p2 =~= ("service_"@ + id_window(a2) + "_"@ + id_window(b2)) + seq!['_']) by {
        assert("_"@ =~= seq!['_']);
    }
    lemma_tail_sep("service_"@ + id_window(a1) + "_"@ + id_window(b1), '_');
    lemma_tail_sep("service_"@ + id_window(a2) + "_"@ + id_window(b2), '_');
    lemma_digit_tail(p1, n1, p2, n2);
}

/// Two message ids with the same text carry the same counter.
pub proof fn lemma_message_id_counter(n1: nat, n2: nat)
    requires
        message_id_text(n1) == message_id_text(n2),
    ensures
        n1 == n2,
{
    reveal_strlit("msg_");
    assert(!is_dec_digit("msg_"@.last()));
    lemma_digit_tail("msg_"@, n1, "msg_"@, n2);
}

/// Two purchase-order ids with the same text carry the same counter and
/// timestamp.
pub proof fn lemma_po_id_counter(n1: nat, t1: nat, n2: nat, t2: nat)
    requires
        po_id_text(n1, t1) == po_id_text(n2, t2),
    ensures
        n1 == n2,
        t1 == t2,
{
    reveal_strlit("-");
    let r1 = "-"@ + dec_of(t1);
    let r2 = "-"@ + dec_of(t2);
    assert(r1[0] == '-' && r2[0] == '-');
    assert(!is_dec_digit('-'));
    assert(po_id_text(n1, t1) =~= "PO-"@ + dec_of(n1) + r1);
    assert(po_id_text(n2, t2) =~= "PO-"@ + dec_of(n2) + r2);
    lemma_digit_run("PO-"@, n1, r1, n2, r2);
    lemma_concat_parts("-"@, dec_of(t1), "-"@, dec_of(t2));
    crate::text::lemma_dec_of_injective(t1, t2);
}

/// Two invoice ids with the same text carry the same counter and timestamp.
pub proof fn lemma_invoice_id_counter(n1: nat, t1: nat, n2: nat, t2: nat)
    requires
        invoice_id_text(n1, t1) == invoice_id_text(n2, t2),
    ensures
        n1 == n2,
        t1 == t2,
{
    reveal_strlit("-");
    let r1 = "-"@ + dec_of(t1);
    let r2 = "-"@ + dec_of(t2);
    assert(r1[0] == '-' && r2[0] == '-');
    assert(!is_dec_digit('-'));
    assert(invoice_id_text(n1, t1) =~= "INV-"@ + dec_of(n1) + r1);
    assert(invoice_id_text(n2, t2) =~= "INV-"@ + dec_of(n2) + r2);
    lemma_digit_run("INV-"@, n1, r1, n2, r2);
    lemma_concat_parts("-"@, dec_of(t1), "-"@, dec_of(t2));
    crate::text::lemma_dec_of_injective(t1, t2);
}

/// An agent id is long enough to carry the window a service id borrows.
pub proof fn lemma_agent_id_text_len(t: u64, n: nat)
    ensures
        agent_id_text(t, n).len() >= 8,
{
    reveal_strlit("agent_");
    reveal_strlit("_");
    crate::text::lemma_hex_of_nonempty(t as nat);
    crate::text::lemma_dec_of_digits(n);
}

/// Whether a character is in a unicode letter or number category.
pub uninterp spec fn is_alphanumeric_char(c: char) -> bool;

/// Relies on char::is_alphanumeric: whether the character is a unicode
/// letter or numeric character, a function of the character alone.
#[verifier::external_body]
fn char_is_alphanumeric(c: char) -> (r: bool)
    ensures
        r == is_alphanumeric_char(c),
{
    c.is_alphanumeric()
}

/// A character an agent name may hold.
pub open spec fn is_name_char(c: char) -> bool {
    is_alphanumeric_char(c) || c == '_' || c == '-' || c == ' '
}

/// A legal agent name: non-empty, at most 64 characters, restricted charset.
pub open spec fn valid_agent_name(s: Seq<char>) -> bool {
    &&& s.len() > 0
    &&& s.len() <= 64
    &&& forall|i: int| 0 <= i < s.len() ==> is_name_char(#[trigger] s[i])
}

/// Check an agent name against the naming rules.
pub fn validate_agent_name(name: &str) -> (r: Result<(), ContractError>)
    ensures
        r is Ok <==> valid_agent_name(name@),
        name@.len() == 0 ==> (r matches Err(ContractError::InvalidAgentName { reason })
            && reason@ == "Name cannot be empty"@),
        name@.len() > 64 ==> (r matches Err(ContractError::InvalidAgentName { reason })
            && reason@ == "Name cannot exceed 64 characters"@),
        r is Err ==> r matches Err(ContractError::InvalidAgentName { .. }),
{
    let n = name.unicode_len();
    if n == 0 {
        return Err(ContractError::InvalidAgentName {
            reason: String::from_str("Name cannot be empty"),
        });
    }
    if n > 64 {
        return Err(ContractError::InvalidAgentName {
            reason: String::from_str("Name cannot exceed 64 characters"),
        });
    }
    let mut i: usize = 0;
    while i < n
        invariant
            i <= n,
            n == name@.len(),
            1 <= n <= 64,
            forall|j: int| 0 <= j < i ==> is_name_char(#[trigger] name@[j]),
        decreases n - i,
    {
        let c = name.get_char(i);
        if !(char_is_alphanumeric(c) || c == '_' || c == '-' || c == ' ') {
            return Err(ContractError::InvalidAgentName {
                reason: String::from_str(
                    "Name can only contain alphanumeric characters, underscores, hyphens, and spaces",
                ),
            });
        }
        i = i + 1;
    }
    Ok(())
}

} // verus!
