//! The messaging mailbox: agent-to-agent messages, single responses, and
//! the notification primitive the business workflows reuse.

use vstd::prelude::*;

use crate::errors::ContractError;
use crate::ids::{lemma_message_id_counter, message_id_string, message_id_text};
use crate::state::{
    same_directory, same_governance, same_ledger, same_procurement, same_services, same_wallets,
    AgentMessage, AgentMessageV, MessageResponse, MessageResponseV, State,
};
use crate::store::StrMap;
use crate::types::{
    attrs_of, clone_strings, transfers_of, views_of, MessageType, Response,
};

verus! {

/// The map `post` is `pre` with `id` appended to the list under `k` and
/// nothing else changed.
pub open spec fn id_appended(
    pre: StrMap<Vec<String>>,
    post: StrMap<Vec<String>>,
    k: Seq<char>,
    id: Seq<char>,
) -> bool {
    &&& post@.dom() == pre@.dom().insert(k)
    &&& views_of(post@[k]@) == (if pre@.contains_key(k) {
        views_of(pre@[k]@).push(id)
    } else {
        seq![id]
    })
    &&& forall|x: Seq<char>| x != k && pre@.contains_key(x) ==> post@[x] == pre@[x]
    &&& forall|x: Seq<char>|
        x != k ==> ((#[trigger] post@.contains_key(x)) <==> pre@.contains_key(x))
}

/// Append one id to the string list stored under `key`.
pub fn push_id_list(lists: &mut StrMap<Vec<String>>, key: &String, id: &String)
    requires
        old(lists).wf(),
    ensures
        final(lists).wf(),
        id_appended(*old(lists), *final(lists), key@, id@),
{
    let new_list: Vec<String> = match lists.get(key) {
        Some(l) => {
            let mut l2 = clone_strings(l);
            l2.push(id.clone());
            proof {
                assert(views_of(l2@) =~= views_of(old(lists)@[key@]@).push(id@));
            }
            l2
        },
        None => {
            let mut l2: Vec<String> = Vec::new();
            l2.push(id.clone());
            proof {
                assert(views_of(l2@) =~= seq![id@]);
            }
            l2
        },
    };
    lists.insert(key.clone(), new_list);
}

/// Allocate the next message id and store the message, without touching
/// any mailbox list.
pub fn store_message(
    messages: &mut StrMap<AgentMessage>,
    counter: &mut u64,
    from_agent_id: &String,
    to_agent_id: &String,
    message_type: MessageType,
    content: String,
    requires_response: bool,
    time: u64,
) -> (message_id: String)
    requires
        old(messages).wf(),
        *old(counter) < u64::MAX,
        forall|k: Seq<char>|
            #[trigger] old(messages)@.contains_key(k) ==> exists|n: nat|
                1 <= n <= *old(counter) && k == message_id_text(n),
    ensures
        final(messages).wf(),
        *final(counter) == *old(counter) + 1,
        forall|k: Seq<char>|
            #[trigger] final(messages)@.contains_key(k) ==> exists|n: nat|
                1 <= n <= *final(counter) && k == message_id_text(n),
        message_id@ == message_id_text((*old(counter) + 1) as nat),
        ({
            let mid = message_id_text((*old(counter) + 1) as nat);
            &&& !old(messages)@.contains_key(mid)
            &&& final(messages)@.dom() == old(messages)@.dom().insert(mid)
            &&& forall|k: Seq<char>|
                k != mid && old(messages)@.contains_key(k) ==> final(messages)@[k] == old(
                    messages,
                )@[k]
            &&& final(messages)@[mid]@ == (AgentMessageV {
                message_id: mid,
                from_agent_id: from_agent_id@,
                to_agent_id: to_agent_id@,
                message_type: message_type@,
                content: content@,
                requires_response,
                timestamp: time,
                response: None,
            })
        }),
{
    let ghost pre_messages = *messages;
    let next = *counter + 1;
    *counter = next;
    let message_id = message_id_string(next);
    let ghost mid = message_id@;
    proof {
        if pre_messages@.contains_key(mid) {
            let n = choose|n: nat| 1 <= n <= next - 1 && mid == message_id_text(n);
            lemma_message_id_counter(n, next as nat);
        }
    }
    let message = AgentMessage {
        message_id: message_id.clone(),
        from_agent_id: from_agent_id.clone(),
        to_agent_id: to_agent_id.clone(),
        message_type,
        content,
        requires_response,
        timestamp: time,
        response: None,
    };
    messages.insert(message_id.clone(), message);
    proof {
        assert(messages@.dom() =~= pre_messages@.dom().insert(mid));
        assert forall|k: Seq<char>| #[trigger] messages@.contains_key(k) implies exists|n: nat|
            1 <= n <= next && k == message_id_text(n) by {
            if k == mid {
                assert(1 <= next as nat <= next && k == message_id_text(next as nat));
            } else {
                assert(pre_messages@.contains_key(k));
                let n = choose|n: nat| 1 <= n <= next - 1 && k == message_id_text(n);
                assert(1 <= n <= next && k == message_id_text(n));
            }
        }
    }
    message_id
}

/// Allocate the next message id, store the message, and append it to the
/// recipient's inbox and the sender's outbox.
pub fn notify(
    messages: &mut StrMap<AgentMessage>,
    counter: &mut u64,
    inboxes: &mut StrMap<Vec<String>>,
    outboxes: &mut StrMap<Vec<String>>,
    from_agent_id: &String,
    to_agent_id: &String,
    message_type: MessageType,
    content: String,
    requires_response: bool,
    time: u64,
)
    requires
        old(messages).wf(),
        old(inboxes).wf(),
        old(outboxes).wf(),
        *old(counter) < u64::MAX,
        forall|k: Seq<char>|
            #[trigger] old(messages)@.contains_key(k) ==> exists|n: nat|
                1 <= n <= *old(counter) && k == message_id_text(n),
    ensures
        final(messages).wf(),
        final(inboxes).wf(),
        final(outboxes).wf(),
        *final(counter) == *old(counter) + 1,
        forall|k: Seq<char>|
            #[trigger] final(messages)@.contains_key(k) ==> exists|n: nat|
                1 <= n <= *final(counter) && k == message_id_text(n),
        ({
            let mid = message_id_text((*old(counter) + 1) as nat);
            &&& !old(messages)@.contains_key(mid)
            &&& final(messages)@.dom() == old(messages)@.dom().insert(mid)
            &&& forall|k: Seq<char>|
                k != mid && old(messages)@.contains_key(k) ==> final(messages)@[k] == old(
                    messages,
                )@[k]
            &&& final(messages)@[mid]@ == (AgentMessageV {
                message_id: mid,
                from_agent_id: from_agent_id@,
                to_agent_id: to_agent_id@,
                message_type: message_type@,
                content: content@,
                requires_response,
                timestamp: time,
                response: None,
            })
            &&& id_appended(*old(inboxes), *final(inboxes), to_agent_id@, mid)
            &&& id_appended(*old(outboxes), *final(outboxes), from_agent_id@, mid)
        }),
{
    let message_id = store_message(
        messages,
        counter,
        from_agent_id,
        to_agent_id,
        message_type,
        content,
        requires_response,
        time,
    );
    push_id_list(outboxes, from_agent_id, &message_id);
    push_id_list(inboxes, to_agent_id, &message_id);
}

/// When `send_message` accepts.
pub open spec fn send_message_allowed(pre: State, sender: String, time: u64, from_agent_id: String, to_agent_id: String, message_type: MessageType, content: String, requires_response: bool) -> bool {
    ({
            &&& pre.agents@.contains_key(from_agent_id@)
            &&& pre.agents@[from_agent_id@].owner@ == sender@
            &&& pre.agents@[from_agent_id@].is_active
            &&& pre.agents@.contains_key(to_agent_id@)
            &&& pre.agents@[to_agent_id@].is_active
            &&& pre.message_counter < u64::MAX
        })
}

/// The full effect of a successful `send_message`.
pub open spec fn send_message_effect(pre: State, post: State, sender: String, time: u64, from_agent_id: String, to_agent_id: String, message_type: MessageType, content: String, requires_response: bool, resp: Response) -> bool {
    ({
            let mid = message_id_text((pre.message_counter + 1) as nat);
            &&& post.message_counter == pre.message_counter + 1
            &&& !pre.messages@.contains_key(mid)
            &&& post.messages@.dom() == pre.messages@.dom().insert(mid)
            &&& forall|k: Seq<char>|
                k != mid && pre.messages@.contains_key(k) ==> post.messages@[k]
                    == pre.messages@[k]
            &&& post.messages@[mid]@ == (AgentMessageV {
                message_id: mid,
                from_agent_id: from_agent_id@,
                to_agent_id: to_agent_id@,
                message_type: message_type@,
                content: content@,
                requires_response,
                timestamp: time,
                response: None,
            })
            &&& id_appended(pre.inboxes, post.inboxes, to_agent_id@, mid)
            &&& id_appended(pre.outboxes, post.outboxes, from_agent_id@, mid)
            &&& post.agents == pre.agents
            &&& same_directory(pre, post)
            &&& same_wallets(pre, post)
            &&& same_services(pre, post)
            &&& same_ledger(pre, post)
            &&& same_procurement(pre, post)
            &&& same_governance(pre, post)
            &&& attrs_of(resp) == seq![
                ("method"@, "send_message"@),
                ("message_id"@, mid),
                ("from_agent"@, from_agent_id@),
                ("to_agent"@, to_agent_id@),
                ("requires_response"@, if requires_response {
                    "true"@
                } else {
                    "false"@
                }),
            ]
            &&& transfers_of(resp) == Seq::<crate::types::BankTransferV>::empty()
        })
}

/// Send a message from one active agent to another.
pub fn send_message(
    state: &mut State,
    sender: &String,
    time: u64,
    from_agent_id: String,
    to_agent_id: String,
    message_type: MessageType,
    content: String,
    requires_response: bool,
) -> (r: Result<Response, ContractError>)
    requires
        old(state).wf(),
    ensures
        final(state).wf(),
        r is Err ==> *final(state) == *old(state),
        !old(state).agents@.contains_key(from_agent_id@) <==> (r matches Err(
            ContractError::AgentNotFound { agent_id },
        ) && agent_id@ == from_agent_id@),
        old(state).agents@.contains_key(from_agent_id@) && old(
            state,
        ).agents@[from_agent_id@].owner@ != sender@ <==> (r matches Err(
            ContractError::Unauthorized { .. },
        )),
        r is Ok <==> send_message_allowed(*old(state), *sender, time, from_agent_id, to_agent_id, message_type, content, requires_response),
        r matches Ok(resp) ==> send_message_effect(*old(state), *final(state), *sender, time, from_agent_id, to_agent_id, message_type, content, requires_response, resp),
{
    match state.agents.get(&from_agent_id) {
        Some(a) => {
            if !crate::order::str_eq(&a.owner, sender) {
                return Err(ContractError::Unauthorized {
                    reason: String::from_str("Only agent owner can send messages"),
                });
            }
            if !a.is_active {
                return Err(ContractError::AgentNotActive { agent_id: from_agent_id });
            }
        },
        None => {
            return Err(ContractError::AgentNotFound { agent_id: from_agent_id });
        },
    }
    match state.agents.get(&to_agent_id) {
        Some(a) => {
            if !a.is_active {
                return Err(ContractError::AgentNotActive { agent_id: to_agent_id });
            }
        },
        None => {
            return Err(ContractError::AgentNotFound { agent_id: to_agent_id });
        },
    }
    if state.message_counter == u64::MAX {
        return Err(ContractError::Overflow {});
    }
    notify(
        &mut state.messages,
        &mut state.message_counter,
        &mut state.inboxes,
        &mut state.outboxes,
        &from_agent_id,
        &to_agent_id,
        message_type,
        content,
        requires_response,
        time,
    );
    let message_id = message_id_string(state.message_counter);
    let mut resp = Response::new();
    resp.push_attr("method", String::from_str("send_message"));
    resp.push_attr("message_id", message_id);
    resp.push_attr("from_agent", from_agent_id);
    resp.push_attr("to_agent", to_agent_id);
    resp.push_attr(
        "requires_response",
        if requires_response {
            String::from_str("true")
        } else {
            String::from_str("false")
        },
    );
    proof {
        let mid = message_id_text((old(state).message_counter + 1) as nat);
        assert(attrs_of(resp) =~= seq![
            ("method"@, "send_message"@),
            ("message_id"@, mid),
            ("from_agent"@, from_agent_id@),
            ("to_agent"@, to_agent_id@),
            ("requires_response"@, if requires_response {
                "true"@
            } else {
                "false"@
            }),
        ]);
    }
    Ok(resp)
}

/// When `respond_to_message` accepts.
pub open spec fn respond_to_message_allowed(pre: State, sender: String, time: u64, message_id: String, from_agent_id: String, response_content: String) -> bool {
    ({
            let m = pre.messages@[message_id@];
            &&& pre.messages@.contains_key(message_id@)
            &&& m.to_agent_id@ == from_agent_id@
            &&& pre.agents@.contains_key(from_agent_id@)
            &&& pre.agents@[from_agent_id@].owner@ == sender@
            &&& m.requires_response
            &&& m.response is None
        })
}

/// The full effect of a successful `respond_to_message`.
pub open spec fn respond_to_message_effect(pre: State, post: State, sender: String, time: u64, message_id: String, from_agent_id: String, response_content: String, resp: Response) -> bool {
    ({
            let m = pre.messages@[message_id@];
            &&& post.messages@.dom() == pre.messages@.dom()
            &&& forall|k: Seq<char>|
                k != message_id@ && pre.messages@.contains_key(k) ==> post.messages@[k] == pre.messages@[k]
            &&& post.messages@[message_id@]@ == (AgentMessageV {
                response: Some(
                    (MessageResponseV { response_content: response_content@, responded_at: time }),
                ),
                ..m@
            })
            &&& post.message_counter == pre.message_counter
            &&& post.inboxes == pre.inboxes
            &&& post.outboxes == pre.outboxes
            &&& post.agents == pre.agents
            &&& same_directory(pre, post)
            &&& same_wallets(pre, post)
            &&& same_services(pre, post)
            &&& same_ledger(pre, post)
            &&& same_procurement(pre, post)
            &&& same_governance(pre, post)
            &&& attrs_of(resp) == seq![
                ("method"@, "respond_to_message"@),
                ("message_id"@, message_id@),
                ("responder_agent"@, from_agent_id@),
                ("responded_at"@, crate::text::dec_of(time as nat)),
            ]
            &&& transfers_of(resp) == Seq::<crate::types::BankTransferV>::empty()
        })
}

/// Record the single response to a message; only the recipient may respond,
/// only when one is required, and only once.
pub fn respond_to_message(
    state: &mut State,
    sender: &String,
    time: u64,
    message_id: String,
    from_agent_id: String,
    response_content: String,
) -> (r: Result<Response, ContractError>)
    requires
        old(state).wf(),
    ensures
        final(state).wf(),
        r is Err ==> *final(state) == *old(state),
        !old(state).messages@.contains_key(message_id@) <==> (r matches Err(
            ContractError::MessageNotFound { .. },
        )),
        r is Ok <==> respond_to_message_allowed(*old(state), *sender, time, message_id, from_agent_id, response_content),
        r matches Ok(resp) ==> respond_to_message_effect(*old(state), *final(state), *sender, time, message_id, from_agent_id, response_content, resp),
{
    let ghost pre = *old(state);
    let mut upd = match state.messages.get(&message_id) {
        Some(m) => {
            if !crate::order::str_eq(&m.to_agent_id, &from_agent_id) {
                return Err(ContractError::Unauthorized {
                    reason: String::from_str("Only the message recipient can respond"),
                });
            }
            m.dup()
        },
        None => {
            return Err(ContractError::MessageNotFound { message_id });
        },
    };
    match state.agents.get(&from_agent_id) {
        Some(a) => {
            if !crate::order::str_eq(&a.owner, sender) {
                return Err(ContractError::Unauthorized {
                    reason: String::from_str("Only agent owner can respond to messages"),
                });
            }
        },
        None => {
            return Err(ContractError::Unauthorized {
                reason: String::from_str("Only agent owner can respond to messages"),
            });
        },
    }
    if !upd.requires_response {
        return Err(ContractError::InvalidOperation {
            operation: String::from_str("Message does not require a response"),
        });
    }
    if upd.response.is_some() {
        return Err(ContractError::InvalidOperation {
            operation: String::from_str("Message has already been responded to"),
        });
    }
    upd.response = Some(MessageResponse { response_content, responded_at: time });
    state.messages.insert(message_id.clone(), upd);
    proof {
        assert(state.messages@.dom() =~= pre.messages@.dom());
    }
    let mut resp = Response::new();
    resp.push_attr("method", String::from_str("respond_to_message"));
    resp.push_attr("message_id", message_id);
    resp.push_attr("responder_agent", from_agent_id);
    resp.push_attr("responded_at", crate::text::dec_u64(time));
    proof {
        assert(attrs_of(resp) =~= seq![
            ("method"@, "respond_to_message"@),
            ("message_id"@, message_id@),
            ("responder_agent"@, from_agent_id@),
            ("responded_at"@, crate::text::dec_of(time as nat)),
        ]);
    }
    Ok(resp)
}

} // verus!
