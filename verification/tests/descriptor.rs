use vcomp::activation::{ActivationSlot, CallbackFault};
use vcomp::callback::Callback;
use vcomp::component::Component;
use vcomp::props::{PropKind, PropValue, PropsFault};
use vcomp::scope::Scope;
use vcomp::transform::PropTransform;
use vcomp::vcomp::{ComponentState, MountPoint, TypeTag, VComponent};

struct Counter;

#[derive(Clone, Debug, PartialEq)]
enum CounterMsg {
    Increment(i64),
}

impl Component for Counter {
    type Message = CounterMsg;
}

#[test]
fn text_and_event_descriptor_delivers_one_message() {
    let mut slots: Vec<ActivationSlot<Counter>> = Vec::new();
    let text: String = slots.transform("hello");
    assert_eq!(text, "hello");
    let cb: Option<Callback<i64, _>> = slots.transform(|count: i64| CounterMsg::Increment(count));
    let cb = cb.expect("the event rule always returns a callback");
    let mut d = VComponent::new(
        TypeTag(1),
        PropValue::ListProp(vec![PropValue::TextProp(text)]),
        slots,
    );
    assert_eq!(d.activators.len(), 1);

    d.activators[0].fill(Scope::new());
    assert_eq!(cb.invoke(3, &mut d.activators), Ok(()));
    assert_eq!(
        d.activators[0].sent_messages(),
        &vec![CounterMsg::Increment(3)]
    );

    assert_eq!(
        d.construct(None),
        Ok(ComponentState {
            component_type: TypeTag(1),
            properties: PropValue::ListProp(vec![PropValue::TextProp(String::from("hello"))]),
            mount: None,
        })
    );
}

#[test]
fn discarded_descriptor_is_silent() {
    let mut slots: Vec<ActivationSlot<Counter>> = Vec::new();
    let _cb: Option<Callback<i64, _>> =
        slots.transform(|count: i64| CounterMsg::Increment(count));
    let d = VComponent::new(TypeTag(2), PropValue::FlagProp(false), slots);
    assert!(!d.activators[0].is_live());
    assert!(d.activators[0].sent_messages().is_empty());
    drop(d);
}

#[test]
fn slot_count_equals_callback_argument_count() {
    let mut slots: Vec<ActivationSlot<Counter>> = Vec::new();
    let _n: i64 = slots.transform(5i64);
    let owned: String = slots.transform(&String::from("copied"));
    assert_eq!(owned, "copied");
    let _s: String = slots.transform("borrowed");
    let d0 = VComponent::new(TypeTag(3), PropValue::IntProp(5), slots);
    assert_eq!(d0.activators.len(), 0);

    let mut slots: Vec<ActivationSlot<Counter>> = Vec::new();
    let a: Option<Callback<i64, _>> = slots.transform(|c: i64| CounterMsg::Increment(c));
    let _t: String = slots.transform("between");
    let b: Option<Callback<i64, _>> = slots.transform(|c: i64| CounterMsg::Increment(c + 1));
    let d2 = VComponent::new(TypeTag(4), PropValue::TextProp(String::from("between")), slots);
    assert_eq!(d2.activators.len(), 2);
    assert_eq!(a.unwrap().slot_index, 0);
    assert_eq!(b.unwrap().slot_index, 1);
}

#[test]
fn premature_invocation_faults_then_activation_delivers() {
    let mut slots: Vec<ActivationSlot<Counter>> = Vec::new();
    let cb: Option<Callback<i64, _>> =
        slots.transform(|count: i64| CounterMsg::Increment(count));
    let cb = cb.unwrap();
    assert_eq!(
        cb.invoke(9, &mut slots),
        Err(CallbackFault::NotActivated)
    );
    assert!(slots[0].sent_messages().is_empty());

    slots[0].fill(Scope::new());
    assert_eq!(cb.invoke(9, &mut slots), Ok(()));
    assert_eq!(slots[0].sent_messages(), &vec![CounterMsg::Increment(9)]);
}

#[test]
fn construction_recovers_props_and_faults_when_repeated() {
    let slots: Vec<ActivationSlot<Counter>> = Vec::new();
    let mut d = VComponent::new(TypeTag(7), PropValue::IntProp(5), slots);
    let mount = MountPoint { id: 11 };
    assert_eq!(
        d.construct(Some(&mount)),
        Ok(ComponentState {
            component_type: TypeTag(7),
            properties: PropValue::IntProp(5),
            mount: Some(11),
        })
    );
    assert_eq!(
        d.construct(None),
        Err(PropsFault::DoubleConsume { stored: PropKind::IntKind })
    );
}

#[test]
fn construction_without_mount_target() {
    let slots: Vec<ActivationSlot<Counter>> = Vec::new();
    let mut d = VComponent::new(TypeTag(8), PropValue::FlagProp(true), slots);
    assert_eq!(
        d.construct(None),
        Ok(ComponentState {
            component_type: TypeTag(8),
            properties: PropValue::FlagProp(true),
            mount: None,
        })
    );
}

#[test]
fn pass_through_keeps_value_and_reference_is_duplicated() {
    let mut slots: Vec<ActivationSlot<Counter>> = Vec::new();
    let n: i64 = slots.transform(-40i64);
    assert_eq!(n, -40);
    let source = String::from("shared");
    let copy: String = slots.transform(&source);
    assert_eq!(copy, source);
    assert_eq!(slots.len(), 0);
}

#[test]
fn each_channel_message_is_recorded_in_order() {
    let mut scope: Scope<Counter> = Scope::new();
    scope.send_message(CounterMsg::Increment(1));
    scope.send_message(CounterMsg::Increment(2));
    assert_eq!(
        scope.sent_messages(),
        &vec![CounterMsg::Increment(1), CounterMsg::Increment(2)]
    );
}
