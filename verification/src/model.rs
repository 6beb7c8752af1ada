//! Data model: stored connection records and their resolved runtime items.

use vstd::prelude::*;

verus! {

/// Display status of a runtime connection item; used only for styling.
#[derive(Clone, Copy, PartialEq, Eq, Structural, Debug)]
pub enum Status {
    Available,
    NotAvailable,
}

/// A persisted connection record.  `host` is the update key: edits locate
/// the record to replace by its host.  Optional fields keep the distinction
/// between an absent field and an empty one.
pub struct StoredConnection {
    pub label: String,
    pub host: String,
    pub port: Option<String>,
    pub user: Option<String>,
    pub password: Option<String>,
    pub details: Option<String>,
}

/// Mathematical view of a stored connection record.
pub struct StoredConnectionView {
    pub label: Seq<char>,
    pub host: Seq<char>,
    pub port: Option<Seq<char>>,
    pub user: Option<Seq<char>>,
    pub password: Option<Seq<char>>,
    pub details: Option<Seq<char>>,
}

impl View for StoredConnection {
    type V = StoredConnectionView;

    open spec fn view(&self) -> StoredConnectionView {
        StoredConnectionView {
            label: self.label@,
            host: self.host@,
            port: self.port.deep_view(),
            user: self.user.deep_view(),
            password: self.password.deep_view(),
            details: self.details.deep_view(),
        }
    }
}

impl DeepView for StoredConnection {
    type V = StoredConnectionView;

    open spec fn deep_view(&self) -> StoredConnectionView {
        self.view()
    }
}

/// A connection record with every optional field resolved to a concrete
/// default, as shown in the list and handed to the session launcher.
pub struct ConnectionItem {
    pub label: String,
    pub host: String,
    pub port: String,
    pub user: String,
    pub password: String,
    pub details: String,
    pub status: Status,
}

/// Mathematical view of a runtime connection item.
pub struct ConnectionItemView {
    pub label: Seq<char>,
    pub host: Seq<char>,
    pub port: Seq<char>,
    pub user: Seq<char>,
    pub password: Seq<char>,
    pub details: Seq<char>,
    pub status: Status,
}

impl View for ConnectionItem {
    type V = ConnectionItemView;

    open spec fn view(&self) -> ConnectionItemView {
        ConnectionItemView {
            label: self.label@,
            host: self.host@,
            port: self.port@,
            user: self.user@,
            password: self.password@,
            details: self.details@,
            status: self.status,
        }
    }
}

impl DeepView for ConnectionItem {
    type V = ConnectionItemView;

    open spec fn deep_view(&self) -> ConnectionItemView {
        self.view()
    }
}

/// An absent optional field resolved to the given default.
pub open spec fn resolved(field: Option<Seq<char>>, default: Seq<char>) -> Seq<char> {
    match field {
        Some(s) => s,
        None => default,
    }
}

/// How a stored record becomes a runtime item when converted directly:
/// port defaults to "22", the other optional fields to empty text.
pub open spec fn resolved_view(c: StoredConnectionView) -> ConnectionItemView {
    ConnectionItemView {
        label: c.label,
        host: c.host,
        port: resolved(c.port, "22"@),
        user: resolved(c.user, Seq::<char>::empty()),
        password: resolved(c.password, Seq::<char>::empty()),
        details: resolved(c.details, Seq::<char>::empty()),
        status: Status::Available,
    }
}

/// How a stored record becomes a runtime item when the selection list is
/// built from the store: port defaults to "22", the user to "root", and
/// the details are not carried over.
pub open spec fn listed_view(c: StoredConnectionView) -> ConnectionItemView {
    ConnectionItemView {
        label: c.label,
        host: c.host,
        port: resolved(c.port, "22"@),
        user: resolved(c.user, "root"@),
        password: resolved(c.password, Seq::<char>::empty()),
        details: Seq::<char>::empty(),
        status: Status::Available,
    }
}

/// How a runtime item converts back to a stored record for persistence:
/// every resolved field is kept, wrapped as present.
pub open spec fn stored_view(c: ConnectionItemView) -> StoredConnectionView {
    StoredConnectionView {
        label: c.label,
        host: c.host,
        port: Some(c.port),
        user: Some(c.user),
        password: Some(c.password),
        details: Some(c.details),
    }
}

/// The blank record the editor opens with: empty label and host, the
/// default port "22", and empty (but present) user, password and details.
pub open spec fn blank_record_view() -> StoredConnectionView {
    StoredConnectionView {
        label: Seq::<char>::empty(),
        host: Seq::<char>::empty(),
        port: Some("22"@),
        user: Some(Seq::<char>::empty()),
        password: Some(Seq::<char>::empty()),
        details: Some(Seq::<char>::empty()),
    }
}

impl StoredConnection {
    /// The empty editor seed: blank label and host, default port "22",
    /// empty (but present) user, password and details.
    pub fn new() -> (r: Self)
        ensures
            r@ == blank_record_view(),
    {
        StoredConnection {
            label: String::new(),
            host: String::new(),
            port: Some(String::from_str("22")),
            user: Some(String::new()),
            password: Some(String::new()),
            details: Some(String::new()),
        }
    }

    /// A field-for-field copy of the record.
    pub fn duplicate(&self) -> (r: Self)
        ensures
            r == *self,
    {
        StoredConnection {
            label: self.label.clone(),
            host: self.host.clone(),
            port: clone_field(&self.port),
            user: clone_field(&self.user),
            password: clone_field(&self.password),
            details: clone_field(&self.details),
        }
    }

    /// Resolves the optional fields to their direct-conversion defaults.
    pub fn into_item(self) -> (r: ConnectionItem)
        ensures
            r@ == resolved_view(self@),
    {
        let StoredConnection { label, host, port, user, password, details } = self;
        ConnectionItem {
            label,
            host,
            port: unwrap_text(port, String::from_str("22")),
            user: unwrap_text(user, String::new()),
            password: unwrap_text(password, String::new()),
            details: unwrap_text(details, String::new()),
            status: Status::Available,
        }
    }

    /// Resolves the optional fields to the selection-list defaults: the
    /// user falls back to "root" and the details are not carried over.
    pub fn into_listed(self) -> (r: ConnectionItem)
        ensures
            r@ == listed_view(self@),
    {
        let StoredConnection { label, host, port, user, password, details: _ } = self;
        ConnectionItem {
            label,
            host,
            port: unwrap_text(port, String::from_str("22")),
            user: unwrap_text(user, String::from_str("root")),
            password: unwrap_text(password, String::new()),
            details: String::new(),
            status: Status::Available,
        }
    }

    /// One line naming every field, absent optional fields shown as "None".
    pub fn describe(&self) -> (r: String)
        ensures
            r@ == describe_text(self@),
    {
        let mut r = String::new();
        r.append("Label: ");
        r.append(self.label.as_str());
        r.append(", Host: ");
        r.append(self.host.as_str());
        r.append(", Port: ");
        append_field(&mut r, &self.port);
        r.append(", User: ");
        append_field(&mut r, &self.user);
        r.append(", Password: ");
        append_field(&mut r, &self.password);
        r.append(", Details: ");
        append_field(&mut r, &self.details);
        r
    }
}

/// The text of `StoredConnection::describe`.
pub open spec fn describe_text(c: StoredConnectionView) -> Seq<char> {
    "Label: "@ + c.label + ", Host: "@ + c.host + ", Port: "@ + resolved(c.port, "None"@)
        + ", User: "@ + resolved(c.user, "None"@) + ", Password: "@
        + resolved(c.password, "None"@) + ", Details: "@ + resolved(c.details, "None"@)
}

/// The info-panel text of `ConnectionItem::display`.
pub open spec fn display_text(c: ConnectionItemView) -> Seq<char> {
    "label: "@ + c.label + "\nhost: "@ + c.host + "\nport: "@ + c.port + "\nuser: "@ + c.user
        + "\ndetails: "@ + c.details + "\n"@
}

/// The text of a row of the selection list: an availability marker,
/// then the label and the host.
pub open spec fn list_line_text(c: ConnectionItemView) -> Seq<char> {
    match c.status {
        Status::Available => " > "@ + c.label + " "@ + c.host,
        Status::NotAvailable => " X "@ + c.label + " "@ + c.host,
    }
}

impl ConnectionItem {
    /// A field-for-field copy of the item.
    pub fn duplicate(&self) -> (r: Self)
        ensures
            r == *self,
    {
        ConnectionItem {
            label: self.label.clone(),
            host: self.host.clone(),
            port: self.port.clone(),
            user: self.user.clone(),
            password: self.password.clone(),
            details: self.details.clone(),
            status: self.status,
        }
    }

    /// Wraps every resolved field as present, for persistence.
    pub fn into_stored(self) -> (r: StoredConnection)
        ensures
            r@ == stored_view(self@),
    {
        let ConnectionItem { label, host, port, user, password, details, status: _ } = self;
        StoredConnection {
            label,
            host,
            port: Some(port),
            user: Some(user),
            password: Some(password),
            details: Some(details),
        }
    }

    /// The multi-line info text shown beside the list.
    pub fn display(&self) -> (r: String)
        ensures
            r@ == display_text(self@),
    {
        let mut r = String::new();
        r.append("label: ");
        r.append(self.label.as_str());
        r.append("\nhost: ");
        r.append(self.host.as_str());
        r.append("\nport: ");
        r.append(self.port.as_str());
        r.append("\nuser: ");
        r.append(self.user.as_str());
        r.append("\ndetails: ");
        r.append(self.details.as_str());
        r.append("\n");
        r
    }

    /// The text of this item's row in the selection list.
    pub fn list_line(&self) -> (r: String)
        ensures
            r@ == list_line_text(self@),
    {
        let mut r = String::new();
        match self.status {
            Status::Available => r.append(" > "),
            Status::NotAvailable => r.append(" X "),
        }
        r.append(self.label.as_str());
        r.append(" ");
        r.append(self.host.as_str());
        r
    }
}

/// A copy of an optional text field.
fn clone_field(field: &Option<String>) -> (r: Option<String>)
    ensures
        r == *field,
{
    match field {
        Some(s) => Some(s.clone()),
        None => None,
    }
}

/// The field's text if present, else the given default.
fn unwrap_text(field: Option<String>, default: String) -> (r: String)
    ensures
        r@ == resolved(field.deep_view(), default@),
{
    match field {
        Some(s) => s,
        None => default,
    }
}

/// Appends the field's text, or "None" if it is absent.
fn append_field(out: &mut String, field: &Option<String>)
    ensures
        final(out)@ == old(out)@ + resolved(field.deep_view(), "None"@),
{
    match field {
        Some(s) => out.append(s.as_str()),
        None => out.append("None"),
    }
}

} // verus!
