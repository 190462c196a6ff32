//! The bus match filter that selects a device's property-change signals.
use vstd::prelude::*;
use vstd::string::*;
use crate::config::DeviceConfig;

verus! {

#[verifier::external_type_specification]
#[verifier::external_body]
pub struct ExZbusError(zbus::Error);

#[verifier::external_type_specification]
#[verifier::external_body]
pub struct ExMatchRule<'m>(zbus::MatchRule<'m>);

/// Whether `c` may stand in a bus object path.
pub open spec fn path_char_ok(c: char) -> bool {
    ('a' <= c && c <= 'z') || ('A' <= c && c <= 'Z') || ('0' <= c && c <= '9') || c == '_' || c == '/'
}

/// The bus object-path syntax: not empty, a leading `/`, no `//`, no trailing
/// `/` but in `/` itself, and only ASCII letters, digits, `_` and `/`.
pub open spec fn object_path_ok(p: Seq<char>) -> bool {
    &&& p.len() > 0
    &&& p[0] == '/'
    &&& (p.len() > 1 ==> p.last() != '/')
    &&& forall|i: int| 0 < i < p.len() ==> !(#[trigger] p[i] == '/' && p[i - 1] == '/')
    &&& forall|i: int| 0 <= i < p.len() ==> path_char_ok(#[trigger] p[i])
}

/// Relies on zbus's `MatchRule::builder` with `msg_type(Signal)`, `interface`,
/// `member` and `path`, and `build`, which cannot fail. The interface and
/// member names are checked first; the standard property-change names pass
/// them, and zvariant's `ObjectPath` check then decides by the path syntax.
#[verifier::external_body]
fn signal_rule<'a>(interface: &'a str, member: &'a str, path: &'a str) -> (r: Result<zbus::MatchRule<'a>, zbus::Error>)
    ensures
        interface@ == properties_interface() && member@ == changed_member() ==> (r is Ok <==> object_path_ok(
            path@,
        )),
{
    Ok(zbus::MatchRule::builder()
        .msg_type(zbus::MessageType::Signal)
        .interface(interface)?
        .member(member)?
        .path(path)?
        .build())
}

/// A subscription to the property-change signals of one object: the signal
/// type is always `signal`.
#[derive(Debug)]
pub struct SubscriptionFilter {
    pub interface: String,
    pub member: String,
    pub path: String,
}

/// The standard interface of property-change notifications.
pub open spec fn properties_interface() -> Seq<char> {
    "org.freedesktop.DBus.Properties"@
}

/// The standard name of the property-change signal.
pub open spec fn changed_member() -> Seq<char> {
    "PropertiesChanged"@
}

/// The textual form of a signal filter, fields in the order type, interface,
/// member, path.
pub open spec fn wire_text(interface: Seq<char>, member: Seq<char>, path: Seq<char>) -> Seq<char> {
    "type='signal',interface='"@ + interface + "',member='"@ + member + "',path='"@ + path + "'"@
}

impl SubscriptionFilter {
    /// The zbus match rule of this filter, or the bus syntax error of one of
    /// its names. With the standard interface and member, it fails exactly
    /// where the path breaks the object-path syntax.
    pub fn match_rule(&self) -> (r: Result<zbus::MatchRule<'_>, zbus::Error>)
        ensures
            self.interface@ == properties_interface() && self.member@ == changed_member() ==> (r is Ok
                <==> object_path_ok(self.path@)),
    {
        signal_rule(self.interface.as_str(), self.member.as_str(), self.path.as_str())
    }

    /// The canonical text of the filter.
    pub fn to_wire_string(&self) -> (r: String)
        ensures
            r@ == wire_text(self.interface@, self.member@, self.path@),
    {
        let mut out = String::from_str("type='signal',interface='");
        out.append(self.interface.as_str());
        out.append("',member='");
        out.append(self.member.as_str());
        out.append("',path='");
        out.append(self.path.as_str());
        out.append("'");
        out
    }
}

impl DeviceConfig {
    /// The filter for this device's property-change signals. It fails exactly
    /// where the path breaks the object-path syntax, with zbus's error.
    pub fn rule(&self) -> (r: Result<SubscriptionFilter, zbus::Error>)
        ensures
            r is Ok <==> object_path_ok(self.path_spec()),
            r matches Ok(f) ==> f.interface@ == properties_interface() && f.member@ == changed_member()
                && f.path@ == self.path_spec(),
    {
        let f = SubscriptionFilter {
            interface: String::from_str("org.freedesktop.DBus.Properties"),
            member: String::from_str("PropertiesChanged"),
            path: String::from_str(self.path()),
        };
        let checked = f.match_rule();
        match checked {
            Ok(_) => Ok(f),
            Err(e) => Err(e),
        }
    }
}

} // verus!
