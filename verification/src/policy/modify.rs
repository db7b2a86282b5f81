//! A request to add or update a policy.
//!
//! Template entries are accumulated in a private list beside the message
//! and merged into exactly one multi-value attribute when the draft is
//! finalized: the kernel accepts only a single attribute carrying an
//! array, not repeated attributes, and the merge must see all additions.

use vstd::prelude::*;

use crate::addr::{addr_bytes_ok, Address};
use crate::errors::Error;
use crate::extract::{ack_result, extract_ack_stream};
use crate::message::{OutboundFrame, PolicyInfo, PolicyModifyMsg, RequestMessage, NLM_F_ACK,
    NLM_F_REQUEST};
use crate::transport::Handle;
use crate::types::{is_prefixed_selector, LifetimeConfig, Mark, Selector, UserTemplate, XfrmAttr};
use vstd::slice::slice_to_vec;

verus! {

/// A request to add or update a policy.  Pure data until executed; fluent
/// configuration calls mutate the draft and hand it back.
#[derive(Clone, Debug, PartialEq, Eq)]
pub struct PolicyModifyRequest {
    pub message: PolicyModifyMsg,
    /// True for an update operation, false for an add.
    pub update: bool,
    /// Template entries accumulated for the deferred merge, in addition
    /// order.
    pub templates: Vec<UserTemplate>,
}

/// The draft with its policy record replaced and everything else kept.
pub open spec fn with_info(q: PolicyModifyRequest, info: PolicyInfo) -> PolicyModifyRequest {
    PolicyModifyRequest { message: PolicyModifyMsg { info, ..q.message }, ..q }
}

/// The draft with its selector replaced and everything else kept.
pub open spec fn with_selector(q: PolicyModifyRequest, sel: Selector) -> PolicyModifyRequest {
    with_info(q, PolicyInfo { selector: sel, ..q.message.info })
}

impl PolicyModifyRequest {
    /// The attribute list of the finalized frame: the draft's attributes,
    /// followed by exactly one template attribute holding every accumulated
    /// entry in addition order — or nothing at all when no template was
    /// added.
    pub open spec fn finalized_attrs(&self) -> Seq<XfrmAttr> {
        if self.templates@.len() == 0 {
            self.message.attrs@
        } else {
            self.message.attrs@.push(XfrmAttr::Template(self.templates))
        }
    }

    /// True when `f` is the frame this draft finalizes to under the given
    /// header flags: the operation kind follows the update flag, the policy
    /// record is carried unchanged, and the attributes are the deferred
    /// merge's result.
    pub open spec fn is_finalized_frame(&self, f: OutboundFrame, flags: u16) -> bool {
        &&& f.flags == flags
        &&& if self.update {
            f.message matches RequestMessage::UpdatePolicy(m) && m.info == self.message.info
                && m.attrs@ == self.finalized_attrs()
        } else {
            f.message matches RequestMessage::AddPolicy(m) && m.info == self.message.info
                && m.attrs@ == self.finalized_attrs()
        }
    }

    /// Constructs the draft from source and destination selector prefixes,
    /// given as raw address bytes.  Fails before any frame exists when an
    /// address cannot be converted to the kernel form.
    pub fn new(
        update: bool,
        src_addr: Vec<u8>,
        src_prefix_len: u8,
        dst_addr: Vec<u8>,
        dst_prefix_len: u8,
    ) -> (r: Result<PolicyModifyRequest, Error>)
        ensures
            addr_bytes_ok(src_addr@) && addr_bytes_ok(dst_addr@) ==> (r matches Ok(q) && ({
                &&& is_prefixed_selector(
                    q.message.info.selector,
                    src_addr@,
                    src_prefix_len,
                    dst_addr@,
                    dst_prefix_len,
                )
                &&& q.message.info.lifetime_cfg.is_unset()
                &&& q.message.info.priority == 0
                &&& q.message.info.index == 0
                &&& q.message.info.direction == 0
                &&& q.message.info.action == 0
                &&& q.message.info.flags == 0
                &&& q.message.info.share == 0
                &&& q.message.attrs@.len() == 0
                &&& q.update == update
                &&& q.templates@.len() == 0
            })),
            !addr_bytes_ok(src_addr@) ==> (r matches Err(e) && e matches Error::InvalidAddress(
                b,
                p,
            ) && b == src_addr && p@ == seq![src_prefix_len]),
            addr_bytes_ok(src_addr@) && !addr_bytes_ok(dst_addr@) ==> (r matches Err(e)
                && e matches Error::InvalidAddress(b, p) && b == dst_addr && p@ == seq![
                dst_prefix_len,
            ]),
    {
        let src_family = Address::family_of(&src_addr);
        let dst_family = Address::family_of(&dst_addr);
        let saddr = Address::from_bytes_prefixed(src_addr, src_prefix_len)?;
        let daddr = Address::from_bytes_prefixed(dst_addr, dst_prefix_len)?;
        let mut message = PolicyModifyMsg { info: PolicyInfo::initial(), attrs: Vec::new() };
        message.info.selector.set_source_prefix(saddr, src_prefix_len, src_family);
        message.info.selector.set_destination_prefix(daddr, dst_prefix_len, dst_family);
        Ok(PolicyModifyRequest { message, update, templates: Vec::new() })
    }

    /// Sets the policy direction.
    pub fn direction(self, direction: u8) -> (r: Self)
        ensures
            r == with_info(self, (PolicyInfo { direction, ..self.message.info })),
    {
        let mut q = self;
        q.message.info.direction = direction;
        q
    }

    /// Sets the policy action.
    pub fn action(self, action: u8) -> (r: Self)
        ensures
            r == with_info(self, (PolicyInfo { action, ..self.message.info })),
    {
        let mut q = self;
        q.message.info.action = action;
        q
    }

    /// Appends the policy type attribute.
    pub fn ptype(self, ptype: u8) -> (r: Self)
        ensures
            r.message.info == self.message.info,
            r.update == self.update,
            r.templates == self.templates,
            r.message.attrs@ == self.message.attrs@.push(XfrmAttr::PolicyType(ptype)),
    {
        let mut q = self;
        q.message.attrs.push(XfrmAttr::PolicyType(ptype));
        q
    }

    /// Appends the opaque security-context attribute.
    pub fn security_context(self, secctx: &[u8]) -> (r: Self)
        ensures
            r.message.info == self.message.info,
            r.update == self.update,
            r.templates == self.templates,
            r.message.attrs@.len() == self.message.attrs@.len() + 1,
            forall|i: int|
                0 <= i < self.message.attrs@.len() ==> r.message.attrs@[i]
                    == self.message.attrs@[i],
            r.message.attrs@.last() matches XfrmAttr::SecurityContext(c) && c@ == secctx@,
    {
        let mut q = self;
        q.message.attrs.push(XfrmAttr::SecurityContext(slice_to_vec(secctx)));
        q
    }

    /// Sets the policy index.  Only values whose low three bits equal the
    /// direction are accepted by the kernel; a mismatch surfaces as a
    /// kernel error at execute time, not here.
    pub fn index(self, index: u32) -> (r: Self)
        ensures
            r == with_info(self, (PolicyInfo { index, ..self.message.info })),
    {
        let mut q = self;
        q.message.info.index = index;
        q
    }

    /// Sets the policy priority.
    pub fn priority(self, priority: u32) -> (r: Self)
        ensures
            r == with_info(self, (PolicyInfo { priority, ..self.message.info })),
    {
        let mut q = self;
        q.message.info.priority = priority;
        q
    }

    /// Appends the interface id attribute.
    pub fn ifid(self, ifid: u32) -> (r: Self)
        ensures
            r.message.info == self.message.info,
            r.update == self.update,
            r.templates == self.templates,
            r.message.attrs@ == self.message.attrs@.push(XfrmAttr::IfId(ifid)),
    {
        let mut q = self;
        q.message.attrs.push(XfrmAttr::IfId(ifid));
        q
    }

    /// Sets the policy flags.
    pub fn flags(self, flags: u8) -> (r: Self)
        ensures
            r == with_info(self, (PolicyInfo { flags, ..self.message.info })),
    {
        let mut q = self;
        q.message.info.flags = flags;
        q
    }

    /// Appends the mark-and-mask attribute.
    pub fn mark(self, mark: u32, mask: u32) -> (r: Self)
        ensures
            r.message.info == self.message.info,
            r.update == self.update,
            r.templates == self.templates,
            r.message.attrs@ == self.message.attrs@.push(
                XfrmAttr::Mark(Mark { value: mark, mask }),
            ),
    {
        let mut q = self;
        q.message.attrs.push(XfrmAttr::Mark(Mark { value: mark, mask }));
        q
    }

    /// Sets the soft and hard limits on seconds since the policy was added.
    pub fn time_limit(self, soft: u64, hard: u64) -> (r: Self)
        ensures
            r == with_info(
                self,
                (PolicyInfo {
                    lifetime_cfg: (LifetimeConfig {
                        soft_add_expires_seconds: soft,
                        hard_add_expires_seconds: hard,
                        ..self.message.info.lifetime_cfg
                    }),
                    ..self.message.info
                }),
            ),
    {
        let mut q = self;
        q.message.info.lifetime_cfg.soft_add_expires_seconds = soft;
        q.message.info.lifetime_cfg.hard_add_expires_seconds = hard;
        q
    }

    /// Sets the soft and hard limits on seconds since the policy was first
    /// used.
    pub fn time_use_limit(self, soft: u64, hard: u64) -> (r: Self)
        ensures
            r == with_info(
                self,
                (PolicyInfo {
                    lifetime_cfg: (LifetimeConfig {
                        soft_use_expires_seconds: soft,
                        hard_use_expires_seconds: hard,
                        ..self.message.info.lifetime_cfg
                    }),
                    ..self.message.info
                }),
            ),
    {
        let mut q = self;
        q.message.info.lifetime_cfg.soft_use_expires_seconds = soft;
        q.message.info.lifetime_cfg.hard_use_expires_seconds = hard;
        q
    }

    /// Sets the soft and hard byte limits.
    pub fn byte_limit(self, soft: u64, hard: u64) -> (r: Self)
        ensures
            r == with_info(
                self,
                (PolicyInfo {
                    lifetime_cfg: (LifetimeConfig {
                        soft_byte_limit: soft,
                        hard_byte_limit: hard,
                        ..self.message.info.lifetime_cfg
                    }),
                    ..self.message.info
                }),
            ),
    {
        let mut q = self;
        q.message.info.lifetime_cfg.soft_byte_limit = soft;
        q.message.info.lifetime_cfg.hard_byte_limit = hard;
        q
    }

    /// Sets the soft and hard packet limits.
    pub fn packet_limit(self, soft: u64, hard: u64) -> (r: Self)
        ensures
            r == with_info(
                self,
                (PolicyInfo {
                    lifetime_cfg: (LifetimeConfig {
                        soft_packet_limit: soft,
                        hard_packet_limit: hard,
                        ..self.message.info.lifetime_cfg
                    }),
                    ..self.message.info
                }),
            ),
    {
        let mut q = self;
        q.message.info.lifetime_cfg.soft_packet_limit = soft;
        q.message.info.lifetime_cfg.hard_packet_limit = hard;
        q
    }

    /// Sets the selector's transport protocol.
    pub fn selector_protocol(self, proto: u8) -> (r: Self)
        ensures
            r == with_selector(self, (Selector { proto, ..self.message.info.selector })),
    {
        let mut q = self;
        q.message.info.selector.proto = proto;
        q
    }

    /// Sets the selector's source port, matched exactly.
    pub fn selector_protocol_src_port(self, port: u16) -> (r: Self)
        ensures
            r == with_selector(
                self,
                (Selector { sport: port, sport_mask: 0xffff, ..self.message.info.selector }),
            ),
    {
        let mut q = self;
        q.message.info.selector.sport = port;
        q.message.info.selector.sport_mask = 0xffff;
        q
    }

    /// Sets the selector's destination port, matched exactly.
    pub fn selector_protocol_dst_port(self, port: u16) -> (r: Self)
        ensures
            r == with_selector(
                self,
                (Selector { dport: port, dport_mask: 0xffff, ..self.message.info.selector }),
            ),
    {
        let mut q = self;
        q.message.info.selector.dport = port;
        q.message.info.selector.dport_mask = 0xffff;
        q
    }

    /// Sets the protocol-specific type overlay on the source port field.
    pub fn selector_protocol_type(self, proto_type: u8) -> (r: Self)
        ensures
            r == with_selector(
                self,
                (Selector {
                    sport: proto_type as u16,
                    sport_mask: 0xffff,
                    ..self.message.info.selector
                }),
            ),
    {
        let mut q = self;
        q.message.info.selector.sport = proto_type as u16;
        q.message.info.selector.sport_mask = 0xffff;
        q
    }

    /// Sets the protocol-specific code overlay on the destination port
    /// field.
    pub fn selector_protocol_code(self, proto_code: u8) -> (r: Self)
        ensures
            r == with_selector(
                self,
                (Selector {
                    dport: proto_code as u16,
                    dport_mask: 0xffff,
                    ..self.message.info.selector
                }),
            ),
    {
        let mut q = self;
        q.message.info.selector.dport = proto_code as u16;
        q.message.info.selector.dport_mask = 0xffff;
        q
    }

    /// Spreads a 32-bit GRE key over the two 16-bit port fields: the high
    /// half on the source side, the low half on the destination side.
    pub fn selector_protocol_gre_key(self, gre_key: u32) -> (r: Self)
        ensures
            r == with_selector(
                self,
                (Selector {
                    sport: (gre_key >> 16) as u16,
                    sport_mask: 0xffff,
                    dport: (gre_key & 0xffff) as u16,
                    dport_mask: 0xffff,
                    ..self.message.info.selector
                }),
            ),
    {
        let mut q = self;
        q.message.info.selector.sport = (gre_key >> 16) as u16;
        q.message.info.selector.sport_mask = 0xffff;
        q.message.info.selector.dport = (gre_key & 0xffff) as u16;
        q.message.info.selector.dport_mask = 0xffff;
        q
    }

    /// Sets the selector's device index.
    pub fn selector_dev_id(self, id: u32) -> (r: Self)
        ensures
            r == with_selector(
                self,
                (Selector { ifindex: id as i32, ..self.message.info.selector }),
            ),
    {
        let mut q = self;
        q.message.info.selector.ifindex = id as i32;
        q
    }

    /// Appends one template entry to the accumulation list.  The message
    /// itself is untouched: all entries are merged into a single
    /// multi-value attribute only when the draft is finalized.
    pub fn add_template(self, template: UserTemplate) -> (r: Self)
        ensures
            r.message == self.message,
            r.update == self.update,
            r.templates@ == self.templates@.push(template),
    {
        let mut q = self;
        q.templates.push(template);
        q
    }

    /// Finalizes the draft into the one outbound frame it submits: merges
    /// the accumulated templates into at most one attribute, picks the add
    /// or update operation by the update flag, and sets the
    /// acknowledged-request flags or the request flag alone.  Finalizing
    /// consumes the draft; it is not repeatable.
    pub fn finalize(self, acked: bool) -> (f: OutboundFrame)
        ensures
            self.is_finalized_frame(
                f,
                if acked {
                    NLM_F_REQUEST | NLM_F_ACK
                } else {
                    NLM_F_REQUEST
                },
            ),
    {
        let PolicyModifyRequest { mut message, update, templates } = self;
        if templates.len() > 0 {
            message.attrs.push(XfrmAttr::Template(templates));
        }
        let msg = if update {
            RequestMessage::UpdatePolicy(message)
        } else {
            RequestMessage::AddPolicy(message)
        };
        let flags = if acked {
            NLM_F_REQUEST | NLM_F_ACK
        } else {
            NLM_F_REQUEST
        };
        OutboundFrame { flags, message: msg }
    }

    /// Finalizes the draft — merging the accumulated templates into at most
    /// one attribute — submits it with the acknowledged-request flags, and
    /// interprets the acknowledgement stream: success exactly when no
    /// kernel error or unexpected frame appears before the stream ends.
    pub fn execute(self, handle: &mut Handle) -> (r: Result<(), Error>)
        ensures
            !old(handle).accepting ==> r == Err::<(), Error>(Error::RequestFailed) && *final(handle)
                == *old(handle),
            old(handle).accepting ==> ({
                &&& final(handle).sent@.len() == old(handle).sent@.len() + 1
                &&& forall|i: int|
                    0 <= i < old(handle).sent@.len() ==> final(handle).sent@[i] == old(
                        handle,
                    ).sent@[i]
                &&& self.is_finalized_frame(
                    final(handle).sent@.last(),
                    NLM_F_REQUEST | NLM_F_ACK,
                )
                &&& final(handle).scripts@ == old(handle).scripts_after_request()
                &&& final(handle).accepting
                &&& r == ack_result(old(handle).next_script())
            }),
    {
        let frame = self.finalize(true);
        let mut replies = handle.request(frame)?;
        extract_ack_stream(&mut replies)
    }

    /// Finalizes the draft with the same deferred merge, submits it with
    /// the request flag alone, and returns as soon as the transport accepts
    /// the frame.  No reply is ever inspected, so no kernel error and no
    /// unexpected message can surface, and nothing confirms that the
    /// kernel applied the change.
    pub fn execute_noack(self, handle: &mut Handle) -> (r: Result<(), Error>)
        ensures
            !old(handle).accepting ==> r == Err::<(), Error>(Error::RequestFailed) && *final(handle)
                == *old(handle),
            old(handle).accepting ==> ({
                &&& final(handle).sent@.len() == old(handle).sent@.len() + 1
                &&& forall|i: int|
                    0 <= i < old(handle).sent@.len() ==> final(handle).sent@[i] == old(
                        handle,
                    ).sent@[i]
                &&& self.is_finalized_frame(final(handle).sent@.last(), NLM_F_REQUEST)
                &&& final(handle).scripts@ == old(handle).scripts_after_request()
                &&& final(handle).accepting
                &&& r == Ok::<(), Error>(())
            }),
    {
        let frame = self.finalize(false);
        let _replies = handle.request(frame)?;
        Ok(())
    }

    /// A mutable reference to the underlying message, for fields not
    /// covered by the named configuration calls.
    pub fn message_mut(&mut self) -> (r: &mut PolicyModifyMsg)
        ensures
            *r == old(self).message,
            *final(self) == (PolicyModifyRequest {
                message: *final(r),
                update: old(self).update,
                templates: old(self).templates,
            }),
    {
        &mut self.message
    }
}

/// Law, deferred aggregation: adding zero templates finalizes to the
/// draft's attributes with no template attribute appended; adding one or
/// more finalizes to exactly one extra attribute, the template attribute,
/// holding every accumulated entry in addition order.
pub proof fn lemma_deferred_aggregation(q: PolicyModifyRequest)
    ensures
        q.templates@.len() == 0 ==> q.finalized_attrs() == q.message.attrs@,
        q.templates@.len() > 0 ==> ({
            &&& q.finalized_attrs().len() == q.message.attrs@.len() + 1
            &&& forall|i: int|
                0 <= i < q.message.attrs@.len() ==> q.finalized_attrs()[i] == q.message.attrs@[i]
            &&& q.finalized_attrs().last() == XfrmAttr::Template(q.templates)
        }),
{
}

} // verus!
