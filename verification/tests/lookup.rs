use std::collections::HashMap;
use zbus::zvariant::{OwnedObjectPath, Signature, Type, Value};
use zbus_lockstep::extract::MemberKind;
use zbus_lockstep::lookup::{find_interface, signature_in, LookupError};
use zbus_lockstep::model::{Argument, InterfaceDecl, MethodDecl, PropertyDecl, SignalDecl};
use zbus_lockstep::xml::{parse_document, parse_interfaces};
use zbus_lockstep::{
    get_method_args_type, get_method_return_type, get_property_type, get_signal_body_type,
    signatures_are_eq,
};

const NOTIFICATIONS: &str = r#"<?xml version="1.0" encoding="UTF-8"?>
<node xmlns:doc="http://www.freedesktop.org/dbus/1.0/doc.dtd">
 <interface name="org.freedesktop.Notifications">
   <method name="Notify">
     <arg type="s" name="app_name" direction="in"/>
     <arg type="u" name="replaces_id" direction="in"/>
     <arg type="s" name="app_icon" direction="in"/>
     <arg type="s" name="summary" direction="in"/>
     <arg type="s" name="body" direction="in"/>
     <arg type="as" name="actions" direction="in"/>
     <arg type="a{sv}" name="hints" direction="in"/>
     <arg type="i" name="expire_timeout" direction="in"/>
     <arg type="u" name="id" direction="out"/>
   </method>
 </interface>
</node>
"#;

const SAMPLE: &str = r#"
<node name="/com/example/sample_object0">
  <node name="first"/>
  <interface name="com.example.SampleInterface0">
    <method name="Frobate">
      <arg name="foo" type="i" direction="in"/>
      <arg name="bar" type="s" direction="out"/>
      <arg name="baz" type="a{us}" direction="out"/>
      <annotation name="org.freedesktop.DBus.Deprecated" value="true"/>
    </method>
    <method name="Bazify">
      <arg name="bar" type="(iiu)" direction="in"/>
      <arg name="bar" type="v" direction="out"/>
    </method>
    <signal name="Changed">
      <arg name="new_value" type="b"/>
      <arg type="x"/>
    </signal>
    <property name="Bar" type="y" access="readwrite"/>
  </interface>
  <interface name="com.example.Empty">
  </interface>
  <node name="child_of_sample_object">
    <interface name="com.example.Hidden">
      <signal name="Changed"><arg type="s"/></signal>
    </interface>
  </node>
</node>
"#;

struct Accessible;

impl Type for Accessible {
    fn signature() -> Signature<'static> {
        <(String, OwnedObjectPath)>::signature()
    }
}

struct CacheItem;

impl Type for CacheItem {
    fn signature() -> Signature<'static> {
        <(
            Accessible,
            Accessible,
            Accessible,
            i32,
            i32,
            Vec<String>,
            String,
            u32,
            String,
            Vec<u32>,
        )>::signature()
    }
}

#[test]
fn test_get_signature_of_cache_add_accessible() {
    let xml = r#"<?xml version="1.0" encoding="UTF-8"?>
            <node xmlns:doc="http://www.freedesktop.org/dbus/1.0/doc.dtd">
                <interface name="org.a11y.atspi.Cache">
                    <signal name="AddAccessible">
                        <arg name="nodeAdded" type="((so)(so)(so)iiassusau)"/>
                        <annotation name="org.qtproject.QtDBus.QtTypeName.In0" value="QSpiAccessibleCacheItem"/>
                    </signal>
                </interface>
            </node>
        "#;

    let interface_name = "org.a11y.atspi.Cache";
    let member_name = "AddAccessible";

    let signature = get_signal_body_type(xml, interface_name, member_name, None).unwrap();
    assert_eq!(signature, CacheItem::signature());
}

#[test]
fn a_signal_body_differs_from_the_struct_that_models_it_but_is_equivalent() {
    let xml = r#"<?xml version="1.0" encoding="UTF-8"?>
<node xmlns:doc="http://www.freedesktop.org/dbus/1.0/doc.dtd">
<interface name="org.freedesktop.bolt1.Manager">
  <signal name="DeviceAdded">
   <arg name="device" type="o"/>
 </signal>
</interface>
</node>
"#;
    let signature =
        get_signal_body_type(xml, "org.freedesktop.bolt1.Manager", "DeviceAdded", None).unwrap();
    let of_struct = <(OwnedObjectPath,)>::signature();
    assert_eq!(signature, "o");
    assert_eq!(of_struct, "(o)");
    assert_ne!(signature, of_struct);
    assert!(signatures_are_eq(&signature, &of_struct));
    assert!(signatures_are_eq(&of_struct, &signature));
}

#[test]
fn signature_values_of_different_shape_are_not_equal() {
    let flat = Signature::from_static_str_unchecked("ii");
    let pair = Signature::from_static_str_unchecked("(i)(i)");
    let wrapped = <(i32, i32)>::signature();
    assert!(!signatures_are_eq(&flat, &pair));
    assert!(!signatures_are_eq(&wrapped, &pair));
    assert!(signatures_are_eq(&flat, &wrapped));
}

#[test]
fn a_slice_of_a_signature_is_compared_by_its_own_text() {
    let whole = Signature::from_static_str_unchecked("(ii)s");
    let head = whole.slice(0..4);
    let flat = Signature::from_static_str_unchecked("ii");
    assert!(signatures_are_eq(&head, &flat));
    assert!(!signatures_are_eq(&whole, &flat));
}

#[test]
fn a_property_type_is_read_from_the_description() {
    let xml = r#"
<node>
<interface name="org.freedesktop.GeoClue2.Manager">
  <property type="b" name="InUse" access="read"/>
</interface>
</node>
"#;
    let signature = get_property_type(xml, "org.freedesktop.GeoClue2.Manager", "InUse").unwrap();
    assert_eq!(signature, bool::signature());
    assert_eq!(signature.as_str(), "b");
    assert!(zbus_lockstep::equivalent(signature.as_str(), "b"));
}

#[test]
fn a_method_return_type_is_read_from_the_description() {
    let xml = r#"
<node>
<interface name="org.a11y.atspi.Accessible">
   <method name="GetRole">
      <arg name="role" type="u" direction="out"/>
  </method>
</interface>
</node>
"#;
    let signature =
        get_method_return_type(xml, "org.a11y.atspi.Accessible", "GetRole", None).unwrap();
    assert_eq!(signature, u32::signature());
}

#[test]
fn method_arguments_are_read_from_the_description() {
    let signature =
        get_method_args_type(NOTIFICATIONS, "org.freedesktop.Notifications", "Notify", None)
            .unwrap();
    let of_struct =
        <(String, u32, String, String, String, Vec<String>, HashMap<String, Value<'_>>, i32)>::signature();
    assert_eq!(signature, "susssasa{sv}i");
    assert!(signatures_are_eq(&signature, &of_struct));
}

#[test]
fn a_method_is_split_by_direction() {
    let returned =
        get_method_return_type(NOTIFICATIONS, "org.freedesktop.Notifications", "Notify", None)
            .unwrap();
    assert_eq!(returned, "u");
    let returned = get_method_return_type(SAMPLE, "com.example.SampleInterface0", "Frobate", None)
        .unwrap();
    assert_eq!(returned, "sa{us}");
    let taken =
        get_method_args_type(SAMPLE, "com.example.SampleInterface0", "Frobate", None).unwrap();
    assert_eq!(taken, "i");
}

#[test]
fn a_named_argument_is_read_whatever_its_direction() {
    let hints = get_method_args_type(
        NOTIFICATIONS,
        "org.freedesktop.Notifications",
        "Notify",
        Some("hints"),
    )
    .unwrap();
    assert_eq!(hints, "a{sv}");
    let id = get_method_args_type(NOTIFICATIONS, "org.freedesktop.Notifications", "Notify", Some("id"))
        .unwrap();
    assert_eq!(id, "u");
    let first_bar =
        get_method_return_type(SAMPLE, "com.example.SampleInterface0", "Bazify", Some("bar"))
            .unwrap();
    assert_eq!(first_bar, "(iiu)");
    let value =
        get_signal_body_type(SAMPLE, "com.example.SampleInterface0", "Changed", Some("new_value"))
            .unwrap();
    assert_eq!(value, "b");
}

#[test]
fn an_unknown_interface_is_reported() {
    assert_eq!(
        get_signal_body_type(SAMPLE, "com.example.Other", "Changed", None),
        Err(LookupError::InterfaceNotFound)
    );
    assert_eq!(
        get_property_type(SAMPLE, "com.example.Hidden", "Bar"),
        Err(LookupError::InterfaceNotFound)
    );
}

#[test]
fn an_unknown_member_is_reported() {
    assert_eq!(
        get_signal_body_type(SAMPLE, "com.example.SampleInterface0", "Frobate", None),
        Err(LookupError::MemberNotFound)
    );
    assert_eq!(
        get_property_type(SAMPLE, "com.example.SampleInterface0", "Changed"),
        Err(LookupError::MemberNotFound)
    );
    assert_eq!(
        get_method_return_type(SAMPLE, "com.example.Empty", "Frobate", None),
        Err(LookupError::MemberNotFound)
    );
    assert_eq!(
        get_method_args_type(SAMPLE, "com.example.SampleInterface0", "Bar", None),
        Err(LookupError::MemberNotFound)
    );
}

#[test]
fn an_unknown_argument_is_reported() {
    assert_eq!(
        get_signal_body_type(SAMPLE, "com.example.SampleInterface0", "Changed", Some("old_value")),
        Err(LookupError::ArgNotFound)
    );
    assert_eq!(
        get_method_args_type(SAMPLE, "com.example.SampleInterface0", "Frobate", Some("qux")),
        Err(LookupError::ArgNotFound)
    );
}

#[test]
fn a_text_that_is_no_description_is_reported_with_the_parsers_words() {
    let outcome = get_signal_body_type("<node><interface", "org.example.Node", "Changed", None);
    match outcome {
        Err(LookupError::Malformed { reason }) => {
            assert!(reason.starts_with("XML error: "), "{reason}");
            assert!(reason.len() > "XML error: ".len());
        }
        other => panic!("{other:?}"),
    }
    assert!(matches!(
        get_property_type("not xml at all", "org.example.Node", "InUse"),
        Err(LookupError::Malformed { .. })
    ));
}

#[test]
fn a_description_is_parsed_into_its_declarations() {
    let interfaces = parse_interfaces(SAMPLE).unwrap();
    let arg = |name: Option<&str>, ty: &str, direction: Option<&str>| Argument {
        name: name.map(str::to_string),
        ty: ty.to_string(),
        direction: direction.map(str::to_string),
    };
    assert_eq!(
        interfaces,
        vec![
            InterfaceDecl {
                name: "com.example.SampleInterface0".to_string(),
                signals: vec![SignalDecl {
                    name: "Changed".to_string(),
                    args: vec![arg(Some("new_value"), "b", None), arg(None, "x", None)],
                }],
                methods: vec![
                    MethodDecl {
                        name: "Frobate".to_string(),
                        args: vec![
                            arg(Some("foo"), "i", Some("in")),
                            arg(Some("bar"), "s", Some("out")),
                            arg(Some("baz"), "a{us}", Some("out")),
                        ],
                    },
                    MethodDecl {
                        name: "Bazify".to_string(),
                        args: vec![
                            arg(Some("bar"), "(iiu)", Some("in")),
                            arg(Some("bar"), "v", Some("out")),
                        ],
                    },
                ],
                properties: vec![PropertyDecl {
                    name: "Bar".to_string(),
                    ty: "y".to_string(),
                    access: "readwrite".to_string(),
                }],
            },
            InterfaceDecl {
                name: "com.example.Empty".to_string(),
                signals: vec![],
                methods: vec![],
                properties: vec![],
            },
        ]
    );
}

#[test]
fn a_document_carries_its_identity() {
    let document = parse_document("xml/sample.xml", SAMPLE).unwrap();
    assert_eq!(document.identity, "xml/sample.xml");
    assert_eq!(document.interfaces, parse_interfaces(SAMPLE).unwrap());
    let failure = parse_document("xml/broken.xml", "<node>").unwrap_err();
    assert_eq!(failure.document, "xml/broken.xml");
    assert!(failure.reason.starts_with("XML error: "), "{}", failure.reason);
    assert_eq!(Err(failure.reason), parse_interfaces("<node>"));
}

#[test]
fn the_first_interface_of_a_name_is_looked_into() {
    let interfaces = parse_interfaces(SAMPLE).unwrap();
    assert_eq!(find_interface(&interfaces, "com.example.SampleInterface0"), Some(0));
    assert_eq!(find_interface(&interfaces, "com.example.Empty"), Some(1));
    assert_eq!(find_interface(&interfaces, "com.example.Hidden"), None);
    assert_eq!(
        signature_in(&interfaces, "com.example.SampleInterface0", MemberKind::Signal, "Changed", None),
        Ok("bx".to_string())
    );
    assert_eq!(
        signature_in(&interfaces, "com.example.Empty", MemberKind::Signal, "Changed", None),
        Err(LookupError::MemberNotFound)
    );
    assert_eq!(
        signature_in(&interfaces, "com.example.Hidden", MemberKind::Signal, "Changed", None),
        Err(LookupError::InterfaceNotFound)
    );
}
