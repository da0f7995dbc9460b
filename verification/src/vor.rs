use vstd::prelude::*;

use crate::settings::{flag_bool, AppSettings, SendFlag, SettingsView, VorFlag};
use crate::text::{parses_as_socket_addr, socket_addr_text};

verus! {

/// The fader banks whose levels can be sent to VOR.
#[derive(Clone, Copy, PartialEq, Eq, Debug, Structural)]
pub enum FaderGroup {
    /// DCA (8)
    Dca,
    /// Main and mono (2)
    Main,
    /// Matrix (6)
    Matrix,
    /// Aux inputs (8)
    Aux,
    /// Mix buses (16)
    Bus,
    /// Channels (32)
    Channel,
}

/// One packet of an update to VOR.
#[derive(Clone, Copy, PartialEq, Eq, Debug, Structural)]
pub enum VorItem {
    /// The `/currentCue` message with the name of the active cue
    CurrentCue,
    /// The bundle of fader messages of one bank
    Faders(FaderGroup),
}

/// The item that one flag switches on.
pub open spec fn flag_item(k: SendFlag) -> VorItem {
    match k {
        SendFlag::Cue => VorItem::CurrentCue,
        SendFlag::Dca => VorItem::Faders(FaderGroup::Dca),
        SendFlag::Main => VorItem::Faders(FaderGroup::Main),
        SendFlag::Matrix => VorItem::Faders(FaderGroup::Matrix),
        SendFlag::Aux => VorItem::Faders(FaderGroup::Aux),
        SendFlag::Bus => VorItem::Faders(FaderGroup::Bus),
        SendFlag::Channel => VorItem::Faders(FaderGroup::Channel),
    }
}

/// The order in which the items are sent.
pub open spec fn send_order() -> Seq<SendFlag> {
    seq![
        SendFlag::Cue,
        SendFlag::Dca,
        SendFlag::Main,
        SendFlag::Matrix,
        SendFlag::Aux,
        SendFlag::Bus,
        SendFlag::Channel,
    ]
}

/// The items of `order` whose flag is set in `s`, in that order.
pub open spec fn plan_of(s: SettingsView, order: Seq<SendFlag>) -> Seq<VorItem>
    decreases order.len(),
{
    if order.len() == 0 {
        Seq::empty()
    } else {
        let rest = plan_of(s, order.drop_last());
        if flag_bool(s.flag(order.last())) {
            rest.push(flag_item(order.last()))
        } else {
            rest
        }
    }
}

/// The packets of one update to VOR: the current cue, then the DCA, main,
/// matrix, aux, bus and channel banks, each only where its flag is set.
pub open spec fn vor_plan_spec(s: SettingsView) -> Seq<VorItem> {
    plan_of(s, send_order())
}

/// The socket address text of VOR: its address, a colon and its port.
pub open spec fn vor_target_text(s: SettingsView) -> Seq<char> {
    s.vor_ip + ":"@ + s.vor_port
}

/// Whether an update goes out at all: both address and port are set and
/// together parse as a socket address.
pub open spec fn vor_target_ok(s: SettingsView) -> bool {
    s.vor_ip.len() > 0 && s.vor_port.len() > 0 && socket_addr_text(vor_target_text(s))
}

fn push_if(plan: &mut Vec<VorItem>, flag: VorFlag, item: VorItem)
    ensures
        final(plan)@ == (if flag_bool(flag) { old(plan)@.push(item) } else { old(plan)@ }),
{
    if flag == VorFlag::Include {
        plan.push(item);
    }
}

/// The packets of one update to VOR for these settings, in sending order.
pub fn vor_plan(settings: &AppSettings) -> (r: Vec<VorItem>)
    ensures
        r@ == vor_plan_spec(settings@),
{
    let s = settings;
    let mut plan: Vec<VorItem> = Vec::new();
    push_if(&mut plan, s.send_cue, VorItem::CurrentCue);
    push_if(&mut plan, s.send_dca, VorItem::Faders(FaderGroup::Dca));
    push_if(&mut plan, s.send_main, VorItem::Faders(FaderGroup::Main));
    push_if(&mut plan, s.send_matrix, VorItem::Faders(FaderGroup::Matrix));
    push_if(&mut plan, s.send_aux, VorItem::Faders(FaderGroup::Aux));
    push_if(&mut plan, s.send_bus, VorItem::Faders(FaderGroup::Bus));
    push_if(&mut plan, s.send_channel, VorItem::Faders(FaderGroup::Channel));
    proof {
        reveal_with_fuel(plan_of, 8);
        let o = send_order();
        assert(o.drop_last() =~= seq![SendFlag::Cue, SendFlag::Dca, SendFlag::Main, SendFlag::Matrix, SendFlag::Aux, SendFlag::Bus]);
        assert(o.drop_last().drop_last() =~= seq![SendFlag::Cue, SendFlag::Dca, SendFlag::Main, SendFlag::Matrix, SendFlag::Aux]);
        assert(o.drop_last().drop_last().drop_last() =~= seq![SendFlag::Cue, SendFlag::Dca, SendFlag::Main, SendFlag::Matrix]);
        assert(o.drop_last().drop_last().drop_last().drop_last() =~= seq![SendFlag::Cue, SendFlag::Dca, SendFlag::Main]);
        assert(o.drop_last().drop_last().drop_last().drop_last().drop_last() =~= seq![SendFlag::Cue, SendFlag::Dca]);
        assert(o.drop_last().drop_last().drop_last().drop_last().drop_last().drop_last() =~= seq![SendFlag::Cue]);
        assert(o.drop_last().drop_last().drop_last().drop_last().drop_last().drop_last().drop_last() =~= Seq::<SendFlag>::empty());
    }
    plan
}

/// The socket address text of VOR for these settings.
pub fn vor_target(settings: &AppSettings) -> (r: String)
    ensures
        r@ == vor_target_text(settings@),
{
    let mut t = settings.vor_ip.clone();
    t.append(":");
    t.append(settings.vor_port.as_str());
    t
}

/// The packets to send to VOR, given whether the VOR target text parses as
/// a socket address: the plan for these settings where address and port
/// are set and the target parses, and nothing otherwise.
pub fn vor_update_for(settings: &AppSettings, target_parses: bool) -> (r: Vec<VorItem>)
    ensures
        r@ == (if settings@.vor_ip.len() > 0 && settings@.vor_port.len() > 0 && target_parses {
            vor_plan_spec(settings@)
        } else {
            Seq::empty()
        }),
{
    if settings.vor_ip.as_str().is_empty() || settings.vor_port.as_str().is_empty() || !target_parses {
        Vec::new()
    } else {
        vor_plan(settings)
    }
}

/// The packets to send to VOR now: the plan for these settings where the
/// VOR address and port are set and parse, and nothing otherwise.
pub fn plan_vor_update(settings: &AppSettings) -> (r: Vec<VorItem>)
    ensures
        r@ == (if vor_target_ok(settings@) { vor_plan_spec(settings@) } else { Seq::empty() }),
{
    let target = vor_target(settings);
    let target_parses = parses_as_socket_addr(target.as_str());
    vor_update_for(settings, target_parses)
}

/// Distinct flags switch on distinct items.
pub proof fn lemma_flag_item_injective(a: SendFlag, b: SendFlag)
    ensures
        flag_item(a) == flag_item(b) ==> a == b,
{
}

/// Every flag has its place in the sending order, once.
pub proof fn lemma_send_order_complete(k: SendFlag)
    ensures
        send_order().contains(k),
        send_order().no_duplicates(),
{
    let o = send_order();
    let i: int = match k {
        SendFlag::Cue => 0,
        SendFlag::Dca => 1,
        SendFlag::Main => 2,
        SendFlag::Matrix => 3,
        SendFlag::Aux => 4,
        SendFlag::Bus => 5,
        SendFlag::Channel => 6,
    };
    assert(o[i] == k);
}

proof fn lemma_plan_of(s: SettingsView, order: Seq<SendFlag>)
    requires
        order.no_duplicates(),
    ensures
        forall|x: VorItem|
            plan_of(s, order).contains(x) <==> exists|k: SendFlag|
                #![trigger flag_item(k)]
                order.contains(k) && flag_bool(s.flag(k)) && x == flag_item(k),
        plan_of(s, order).no_duplicates(),
    decreases order.len(),
{
    if order.len() > 0 {
        let init = order.drop_last();
        let last = order.last();
        assert(init.no_duplicates());
        lemma_plan_of(s, init);
        let rest = plan_of(s, init);
        assert(!init.contains(last)) by {
            if init.contains(last) {
                let j = choose|j: int| 0 <= j < init.len() && init[j] == last;
                assert(order[j] == order[order.len() - 1]);
            }
        }
        assert forall|k: SendFlag| order.contains(k) <==> (init.contains(k) || k == last) by {
            if order.contains(k) && k != last {
                let j = choose|j: int| 0 <= j < order.len() && order[j] == k;
                assert(init[j] == k);
            }
            if k == last {
                assert(order[order.len() - 1] == k);
            }
            if init.contains(k) {
                let j = choose|j: int| 0 <= j < init.len() && init[j] == k;
                assert(order[j] == k);
            }
        }
        if flag_bool(s.flag(last)) {
            assert(!rest.contains(flag_item(last))) by {
                if rest.contains(flag_item(last)) {
                    let k = choose|k: SendFlag|
                        #![trigger flag_item(k)]
                        init.contains(k) && flag_bool(s.flag(k)) && flag_item(last) == flag_item(k);
                    lemma_flag_item_injective(last, k);
                }
            }
            let p = rest.push(flag_item(last));
            assert forall|x: VorItem| p.contains(x) <==> (rest.contains(x) || x == flag_item(last)) by {
                if p.contains(x) && x != flag_item(last) {
                    let j = choose|j: int| 0 <= j < p.len() && p[j] == x;
                    assert(rest[j] == x);
                }
                if x == flag_item(last) {
                    assert(p[p.len() - 1] == x);
                }
                if rest.contains(x) {
                    let j = choose|j: int| 0 <= j < rest.len() && rest[j] == x;
                    assert(p[j] == x);
                }
            }
            assert forall|i: int, j: int| 0 <= i < p.len() && 0 <= j < p.len() && i != j implies p[i] != p[j] by {
                if i < rest.len() && j < rest.len() {
                    assert(p[i] == rest[i] && p[j] == rest[j]);
                } else if i < rest.len() {
                    assert(rest.contains(p[i]));
                } else if j < rest.len() {
                    assert(rest.contains(p[j]));
                }
            }
        }
    }
}

/// An update to VOR holds the item of a flag exactly when that flag is set,
/// and holds no item twice.
pub proof fn lemma_vor_plan_members(s: SettingsView, k: SendFlag)
    ensures
        vor_plan_spec(s).contains(flag_item(k)) <==> flag_bool(s.flag(k)),
        vor_plan_spec(s).no_duplicates(),
{
    lemma_send_order_complete(k);
    lemma_plan_of(s, send_order());
    if vor_plan_spec(s).contains(flag_item(k)) {
        let k2 = choose|k2: SendFlag|
            #![trigger flag_item(k2)]
            send_order().contains(k2) && flag_bool(s.flag(k2)) && flag_item(k) == flag_item(k2);
        lemma_flag_item_injective(k, k2);
    }
}

/// Switching a flag adds its item to the update or removes it, and leaves
/// every other item as it was.
pub proof fn lemma_toggle_changes_one_item(s: SettingsView, k: SendFlag, other: SendFlag)
    ensures
        vor_plan_spec(s.toggled(k)).contains(flag_item(k)) <==> !vor_plan_spec(s).contains(flag_item(k)),
        other != k ==> (vor_plan_spec(s.toggled(k)).contains(flag_item(other))
            <==> vor_plan_spec(s).contains(flag_item(other))),
{
    lemma_vor_plan_members(s, k);
    lemma_vor_plan_members(s.toggled(k), k);
    lemma_vor_plan_members(s, other);
    lemma_vor_plan_members(s.toggled(k), other);
}

/// One item where the flag is `Include`, none where it is `Skip`.
pub open spec fn item_if(f: VorFlag, x: VorItem) -> Seq<VorItem> {
    if f == VorFlag::Include { seq![x] } else { Seq::empty() }
}

/// An update to VOR, field by field: the current cue where `send_cue` is
/// set, then the DCA bank where `send_dca` is set, then main, matrix, aux,
/// bus and channel, each where its own field is set.
pub proof fn lemma_vor_plan_fields(s: SettingsView)
    ensures
        vor_plan_spec(s) == item_if(s.send_cue, VorItem::CurrentCue)
            + item_if(s.send_dca, VorItem::Faders(FaderGroup::Dca))
            + item_if(s.send_main, VorItem::Faders(FaderGroup::Main))
            + item_if(s.send_matrix, VorItem::Faders(FaderGroup::Matrix))
            + item_if(s.send_aux, VorItem::Faders(FaderGroup::Aux))
            + item_if(s.send_bus, VorItem::Faders(FaderGroup::Bus))
            + item_if(s.send_channel, VorItem::Faders(FaderGroup::Channel)),
{
    reveal_with_fuel(plan_of, 8);
    let o = send_order();
    assert(o.drop_last() =~= seq![SendFlag::Cue, SendFlag::Dca, SendFlag::Main, SendFlag::Matrix, SendFlag::Aux, SendFlag::Bus]);
    assert(o.drop_last().drop_last() =~= seq![SendFlag::Cue, SendFlag::Dca, SendFlag::Main, SendFlag::Matrix, SendFlag::Aux]);
    assert(o.drop_last().drop_last().drop_last() =~= seq![SendFlag::Cue, SendFlag::Dca, SendFlag::Main, SendFlag::Matrix]);
    assert(o.drop_last().drop_last().drop_last().drop_last() =~= seq![SendFlag::Cue, SendFlag::Dca, SendFlag::Main]);
    assert(o.drop_last().drop_last().drop_last().drop_last().drop_last() =~= seq![SendFlag::Cue, SendFlag::Dca]);
    assert(o.drop_last().drop_last().drop_last().drop_last().drop_last().drop_last() =~= seq![SendFlag::Cue]);
    assert(o.drop_last().drop_last().drop_last().drop_last().drop_last().drop_last().drop_last() =~= Seq::<SendFlag>::empty());
    assert(vor_plan_spec(s) =~= item_if(s.send_cue, VorItem::CurrentCue)
        + item_if(s.send_dca, VorItem::Faders(FaderGroup::Dca))
        + item_if(s.send_main, VorItem::Faders(FaderGroup::Main))
        + item_if(s.send_matrix, VorItem::Faders(FaderGroup::Matrix))
        + item_if(s.send_aux, VorItem::Faders(FaderGroup::Aux))
        + item_if(s.send_bus, VorItem::Faders(FaderGroup::Bus))
        + item_if(s.send_channel, VorItem::Faders(FaderGroup::Channel)));
}

/// Each bank's bundle is in an update to VOR exactly when that bank's own
/// field is `Include`, and the cue message exactly when `send_cue` is.
pub proof fn lemma_vor_plan_field_members(s: SettingsView)
    ensures
        vor_plan_spec(s).contains(VorItem::CurrentCue) <==> s.send_cue == VorFlag::Include,
        vor_plan_spec(s).contains(VorItem::Faders(FaderGroup::Dca)) <==> s.send_dca == VorFlag::Include,
        vor_plan_spec(s).contains(VorItem::Faders(FaderGroup::Main)) <==> s.send_main == VorFlag::Include,
        vor_plan_spec(s).contains(VorItem::Faders(FaderGroup::Matrix)) <==> s.send_matrix == VorFlag::Include,
        vor_plan_spec(s).contains(VorItem::Faders(FaderGroup::Aux)) <==> s.send_aux == VorFlag::Include,
        vor_plan_spec(s).contains(VorItem::Faders(FaderGroup::Bus)) <==> s.send_bus == VorFlag::Include,
        vor_plan_spec(s).contains(VorItem::Faders(FaderGroup::Channel)) <==> s.send_channel == VorFlag::Include,
        vor_plan_spec(s).len() <= 7,
{
    lemma_vor_plan_members(s, SendFlag::Cue);
    lemma_vor_plan_members(s, SendFlag::Dca);
    lemma_vor_plan_members(s, SendFlag::Main);
    lemma_vor_plan_members(s, SendFlag::Matrix);
    lemma_vor_plan_members(s, SendFlag::Aux);
    lemma_vor_plan_members(s, SendFlag::Bus);
    lemma_vor_plan_members(s, SendFlag::Channel);
    lemma_vor_plan_fields(s);
}

/// The VOR target is the VOR address, a colon and the VOR port; the X32
/// address and the flags play no part in it.
pub proof fn lemma_vor_target_fields(s: SettingsView, t: Seq<char>, f: VorFlag)
    ensures
        vor_target_text(s) == s.vor_ip + ":"@ + s.vor_port,
        vor_target_text(SettingsView { x32_ip: t, ..s }) == vor_target_text(s),
        vor_target_ok(SettingsView { x32_ip: t, ..s }) == vor_target_ok(s),
        vor_target_text(SettingsView { send_cue: f, send_dca: f, send_main: f, send_matrix: f, send_aux: f, send_bus: f, send_channel: f, ..s }) == vor_target_text(s),
        vor_target_ok(s) == (s.vor_ip.len() > 0 && s.vor_port.len() > 0
            && socket_addr_text(s.vor_ip + ":"@ + s.vor_port)),
{
}

/// Whether an update goes out, and what it holds, does not depend on the
/// X32 address.
pub proof fn lemma_vor_update_ignores_x32(s: SettingsView, t: Seq<char>)
    ensures
        vor_plan_spec(SettingsView { x32_ip: t, ..s }) == vor_plan_spec(s),
{
    lemma_vor_plan_fields(s);
    lemma_vor_plan_fields(SettingsView { x32_ip: t, ..s });
}

} // verus!
