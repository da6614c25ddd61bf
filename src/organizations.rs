//! Organization creation, update and membership.

use vstd::prelude::*;
use crate::error::{is_invalid_request, Auth0Error, Result};
use crate::wire::{
    document_of, lemma_distinct_names, lemma_fields_read_back, lemma_only_present_fields, lookup,
    name_unused, names_differ, only_present_fields, opt_document, opt_model, opt_text, present,
    text_list, text_of, texts_into_wire, Json, ObjectBuilder, WireValue,
};

verus! {

/// Body of a request that creates an organization.
#[derive(Debug)]
pub struct CreateOrganizationRequest {
    /// A unique identifier for the organization, used for its slug.
    pub name: String,
    /// A friendly name.
    pub display_name: Option<String>,
    /// Branding settings.
    pub branding: Option<OrganizationBranding>,
    /// Free-form metadata.
    pub metadata: Option<serde_json::Value>,
    /// Connections enabled for the organization.
    pub enabled_connections: Option<Vec<EnabledConnection>>,
}

impl Default for CreateOrganizationRequest {
    /// Empty required text, and no optional field.
    fn default() -> (r: Self)
        ensures
            r.name@.len() == 0,
            r.display_name is None,
            r.branding is None,
            r.metadata is None,
            r.enabled_connections is None,
    {
        CreateOrganizationRequest {
            name: String::new(),
            display_name: None,
            branding: None,
            metadata: None,
            enabled_connections: None,
        }
    }
}

/// Branding of an organization.
#[derive(Debug)]
pub struct OrganizationBranding {
    /// URL of the organization's logo.
    pub logo_url: Option<String>,
    /// Colors, in hex notation.
    pub colors: Option<BrandingColors>,
}

/// Colors of an organization's branding.
#[derive(Debug)]
pub struct BrandingColors {
    /// Primary color, such as `#FF5733`.
    pub primary: Option<String>,
    /// Page background color.
    pub page_background: Option<String>,
}

/// A connection enabled for an organization.
#[derive(Debug)]
pub struct EnabledConnection {
    /// The connection ID.
    pub connection_id: String,
    /// Whether to assign membership on login.
    pub assign_membership_on_login: bool,
    /// Whether to show the connection as a button.
    pub show_as_button: bool,
    /// Whether sign-up is enabled through this connection.
    pub is_signup_enabled: bool,
}

/// An organization as the API returns it.
#[derive(Debug)]
pub struct OrganizationResponse {
    /// The organization's unique identifier.
    pub id: String,
    /// The organization's name (slug).
    pub name: String,
    /// The display name.
    pub display_name: Option<String>,
    /// Branding settings.
    pub branding: Option<OrganizationBranding>,
    /// Free-form metadata.
    pub metadata: Option<serde_json::Value>,
    /// Enabled connections.
    pub enabled_connections: Option<Vec<EnabledConnection>>,
}

/// Body of a request that updates an organization: only the fields that
/// are present are changed.
#[derive(Debug)]
pub struct PatchOrganizationRequest {
    /// A friendly name.
    pub display_name: Option<String>,
    /// The organization's name (slug).
    pub name: Option<String>,
    /// Branding settings.
    pub branding: Option<OrganizationBranding>,
    /// Free-form metadata.
    pub metadata: Option<serde_json::Value>,
    /// Connections enabled for the organization.
    pub enabled_connections: Option<Vec<EnabledConnection>>,
}

impl Default for PatchOrganizationRequest {
    /// Empty required text, and no optional field.
    fn default() -> (r: Self)
        ensures

            r.display_name is None,
            r.name is None,
            r.branding is None,
            r.metadata is None,
            r.enabled_connections is None,
    {
        PatchOrganizationRequest {
            display_name: None,
            name: None,
            branding: None,
            metadata: None,
            enabled_connections: None,
        }
    }
}

/// Body of a request that adds users to an organization.
#[derive(Debug)]
pub struct AddMembersRequest {
    /// The IDs of the users to add.
    pub members: Vec<String>,
}


/// The value of an optional colors field.
pub open spec fn colors_of(o: Option<BrandingColors>) -> Option<Json> {
    match o {
        Some(c) => Some(Json::Object(present(c.wire_fields()))),
        None => None,
    }
}

/// The value of an optional branding field.
pub open spec fn branding_of(o: Option<OrganizationBranding>) -> Option<Json> {
    match o {
        Some(b) => Some(Json::Object(present(b.wire_fields()))),
        None => None,
    }
}

/// A list of enabled connections.
pub open spec fn connection_list(s: Seq<EnabledConnection>) -> Json {
    Json::List(Seq::new(s.len(), |i: int| Json::Object(present(s[i].wire_fields()))))
}

/// The value of an optional list of enabled connections.
pub open spec fn connections_of(o: Option<Vec<EnabledConnection>>) -> Option<Json> {
    match o {
        Some(v) => Some(connection_list(v@)),
        None => None,
    }
}

impl BrandingColors {
    /// The body's fields, by their names on the wire.
    pub open spec fn wire_fields(&self) -> Seq<(Seq<char>, Option<Json>)> {
        seq![
            ("primary"@, text_of(self.primary)),
            ("page_background"@, text_of(self.page_background)),
        ]
    }

    /// The JSON form of the colors; an absent field leaves no key.
    pub fn into_wire(self) -> (r: WireValue)
        ensures
            r.model() == Json::Object(present(self.wire_fields())),
    {
        let ghost fields = self.wire_fields();
        let mut obj = ObjectBuilder::new();
        obj.field("primary", opt_text(self.primary));
        obj.field("page_background", opt_text(self.page_background));
        assert(obj.fields() =~= fields);
        obj.finish()
    }
}

impl OrganizationBranding {
    /// The body's fields, by their names on the wire.
    pub open spec fn wire_fields(&self) -> Seq<(Seq<char>, Option<Json>)> {
        seq![
            ("logo_url"@, text_of(self.logo_url)),
            ("colors"@, colors_of(self.colors)),
        ]
    }

    /// The JSON form of the branding; an absent field leaves no key.
    pub fn into_wire(self) -> (r: WireValue)
        ensures
            r.model() == Json::Object(present(self.wire_fields())),
    {
        let ghost fields = self.wire_fields();
        let mut obj = ObjectBuilder::new();
        obj.field("logo_url", opt_text(self.logo_url));
        obj.field("colors", opt_colors(self.colors));
        assert(obj.fields() =~= fields);
        obj.finish()
    }
}

impl EnabledConnection {
    /// The body's fields, by their names on the wire.
    pub open spec fn wire_fields(&self) -> Seq<(Seq<char>, Option<Json>)> {
        seq![
            ("connection_id"@, Some(Json::Text(self.connection_id@))),
            ("assign_membership_on_login"@, Some(Json::Flag(self.assign_membership_on_login))),
            ("show_as_button"@, Some(Json::Flag(self.show_as_button))),
            ("is_signup_enabled"@, Some(Json::Flag(self.is_signup_enabled))),
        ]
    }

    /// The JSON form of the connection; an absent field leaves no key.
    pub fn into_wire(self) -> (r: WireValue)
        ensures
            r.model() == Json::Object(present(self.wire_fields())),
    {
        let ghost fields = self.wire_fields();
        let mut obj = ObjectBuilder::new();
        obj.field("connection_id", Some(WireValue::Text(self.connection_id)));
        obj.field("assign_membership_on_login", Some(WireValue::Flag(self.assign_membership_on_login)));
        obj.field("show_as_button", Some(WireValue::Flag(self.show_as_button)));
        obj.field("is_signup_enabled", Some(WireValue::Flag(self.is_signup_enabled)));
        assert(obj.fields() =~= fields);
        obj.finish()
    }
}

impl CreateOrganizationRequest {
    /// The body's fields, by their names on the wire.
    pub open spec fn wire_fields(&self) -> Seq<(Seq<char>, Option<Json>)> {
        seq![
            ("name"@, Some(Json::Text(self.name@))),
            ("display_name"@, text_of(self.display_name)),
            ("branding"@, branding_of(self.branding)),
            ("metadata"@, document_of(self.metadata)),
            ("enabled_connections"@, connections_of(self.enabled_connections)),
        ]
    }

    /// The JSON body of the request; an absent field leaves no key.
    pub fn into_wire(self) -> (r: WireValue)
        ensures
            r.model() == Json::Object(present(self.wire_fields())),
    {
        let ghost fields = self.wire_fields();
        let mut obj = ObjectBuilder::new();
        obj.field("name", Some(WireValue::Text(self.name)));
        obj.field("display_name", opt_text(self.display_name));
        obj.field("branding", opt_branding(self.branding));
        obj.field("metadata", opt_document(self.metadata));
        obj.field("enabled_connections", opt_connections(self.enabled_connections));
        assert(obj.fields() =~= fields);
        obj.finish()
    }
}

impl PatchOrganizationRequest {
    /// The body's fields, by their names on the wire.
    pub open spec fn wire_fields(&self) -> Seq<(Seq<char>, Option<Json>)> {
        seq![
            ("display_name"@, text_of(self.display_name)),
            ("name"@, text_of(self.name)),
            ("branding"@, branding_of(self.branding)),
            ("metadata"@, document_of(self.metadata)),
            ("enabled_connections"@, connections_of(self.enabled_connections)),
        ]
    }

    /// The JSON body of the request; an absent field leaves no key.
    pub fn into_wire(self) -> (r: WireValue)
        ensures
            r.model() == Json::Object(present(self.wire_fields())),
    {
        let ghost fields = self.wire_fields();
        let mut obj = ObjectBuilder::new();
        obj.field("display_name", opt_text(self.display_name));
        obj.field("name", opt_text(self.name));
        obj.field("branding", opt_branding(self.branding));
        obj.field("metadata", opt_document(self.metadata));
        obj.field("enabled_connections", opt_connections(self.enabled_connections));
        assert(obj.fields() =~= fields);
        obj.finish()
    }
}

impl AddMembersRequest {
    /// The body's fields, by their names on the wire.
    pub open spec fn wire_fields(&self) -> Seq<(Seq<char>, Option<Json>)> {
        seq![
            ("members"@, Some(text_list(self.members@))),
        ]
    }

    /// The JSON body of the request; an absent field leaves no key.
    pub fn into_wire(self) -> (r: WireValue)
        ensures
            r.model() == Json::Object(present(self.wire_fields())),
    {
        let ghost fields = self.wire_fields();
        let mut obj = ObjectBuilder::new();
        obj.field("members", Some(texts_into_wire(&self.members)));
        assert(obj.fields() =~= fields);
        obj.finish()
    }
}

fn opt_colors(o: Option<BrandingColors>) -> (r: Option<WireValue>)
    ensures
        opt_model(r) == colors_of(o),
{
    match o {
        Some(c) => Some(c.into_wire()),
        None => None,
    }
}

fn opt_branding(o: Option<OrganizationBranding>) -> (r: Option<WireValue>)
    ensures
        opt_model(r) == branding_of(o),
{
    match o {
        Some(b) => Some(b.into_wire()),
        None => None,
    }
}

fn connections_into_wire(v: Vec<EnabledConnection>) -> (r: WireValue)
    ensures
        r.model() == connection_list(v@),
{
    let ghost all = v@;
    let mut rest = v;
    let mut out: Vec<WireValue> = Vec::new();
    while rest.len() > 0
        invariant
            out@.len() + rest@.len() == all.len(),
            rest@ == all.skip(out@.len() as int),
            forall|k: int|
                0 <= k < out@.len() ==> (#[trigger] out@[k]).model() == Json::Object(
                    present(all[k].wire_fields()),
                ),
        decreases rest@.len(),
    {
        let ghost n = out@.len();
        let c = rest.remove(0);
        assert(c == all[n as int]);
        out.push(c.into_wire());
        assert(rest@ =~= all.skip(out@.len() as int));
    }
    let r = WireValue::List(out);
    assert(r.model() == connection_list(all)) by {
        if let Json::List(es) = r.model() {
            if let Json::List(want) = connection_list(all) {
                assert(es =~= want);
            }
        }
    }
    r
}

fn opt_connections(o: Option<Vec<EnabledConnection>>) -> (r: Option<WireValue>)
    ensures
        opt_model(r) == connections_of(o),
{
    match o {
        Some(v) => Some(connections_into_wire(v)),
        None => None,
    }
}

/// The JSON form of branding colors holds nothing but the colors that are
/// set, and reading each back by its name gives its value.
pub proof fn lemma_branding_colors_wire(req: BrandingColors)
    ensures
        only_present_fields(req.wire_fields()),
        lookup(present(req.wire_fields()), "primary"@) == text_of(req.primary),
        lookup(present(req.wire_fields()), "page_background"@) == text_of(req.page_background),
{
    let fs = req.wire_fields();
    lemma_only_present_fields(fs);
    reveal_strlit("primary");
    reveal_strlit("page_background");
    assert(fs[0].0 == "primary"@);
    assert(fs[1].0 == "page_background"@);
    reveal_with_fuel(names_differ, 3);
    reveal_with_fuel(name_unused, 3);
    lemma_distinct_names(fs, fs.len() as int);
    lemma_fields_read_back(fs);
}

/// The JSON form of a branding holds nothing but the settings that are set,
/// and reading each back by its name gives its value.
pub proof fn lemma_organization_branding_wire(req: OrganizationBranding)
    ensures
        only_present_fields(req.wire_fields()),
        lookup(present(req.wire_fields()), "logo_url"@) == text_of(req.logo_url),
        lookup(present(req.wire_fields()), "colors"@) == colors_of(req.colors),
{
    let fs = req.wire_fields();
    lemma_only_present_fields(fs);
    reveal_strlit("logo_url");
    reveal_strlit("colors");
    assert(fs[0].0 == "logo_url"@);
    assert(fs[1].0 == "colors"@);
    reveal_with_fuel(names_differ, 3);
    reveal_with_fuel(name_unused, 3);
    lemma_distinct_names(fs, fs.len() as int);
    lemma_fields_read_back(fs);
}

/// The body of an organization-creation request holds nothing but the
/// fields that are set, and reading each field back by its name gives its
/// value.
pub proof fn lemma_create_organization_wire(req: CreateOrganizationRequest)
    ensures
        only_present_fields(req.wire_fields()),
        lookup(present(req.wire_fields()), "name"@) == Some(Json::Text(req.name@)),
        lookup(present(req.wire_fields()), "display_name"@) == text_of(req.display_name),
        lookup(present(req.wire_fields()), "branding"@) == branding_of(req.branding),
        lookup(present(req.wire_fields()), "metadata"@) == document_of(req.metadata),
        lookup(present(req.wire_fields()), "enabled_connections"@) == connections_of(req.enabled_connections),
{
    let fs = req.wire_fields();
    lemma_only_present_fields(fs);
    reveal_strlit("name");
    reveal_strlit("display_name");
    reveal_strlit("branding");
    reveal_strlit("metadata");
    reveal_strlit("enabled_connections");
    assert(fs[0].0 == "name"@);
    assert(fs[1].0 == "display_name"@);
    assert(fs[2].0 == "branding"@);
    assert(fs[3].0 == "metadata"@);
    assert(fs[4].0 == "enabled_connections"@);
    // Names of equal length differ at these letters.
    assert(fs[2].0[0] == 'b');
    assert(fs[3].0[0] == 'm');
    reveal_with_fuel(names_differ, 6);
    reveal_with_fuel(name_unused, 6);
    lemma_distinct_names(fs, fs.len() as int);
    lemma_fields_read_back(fs);
}

/// The body of an organization update holds nothing but the fields that
/// are set, and reading each field back by its name gives its value.
pub proof fn lemma_patch_organization_wire(req: PatchOrganizationRequest)
    ensures
        only_present_fields(req.wire_fields()),
        lookup(present(req.wire_fields()), "display_name"@) == text_of(req.display_name),
        lookup(present(req.wire_fields()), "name"@) == text_of(req.name),
        lookup(present(req.wire_fields()), "branding"@) == branding_of(req.branding),
        lookup(present(req.wire_fields()), "metadata"@) == document_of(req.metadata),
        lookup(present(req.wire_fields()), "enabled_connections"@) == connections_of(req.enabled_connections),
{
    let fs = req.wire_fields();
    lemma_only_present_fields(fs);
    reveal_strlit("display_name");
    reveal_strlit("name");
    reveal_strlit("branding");
    reveal_strlit("metadata");
    reveal_strlit("enabled_connections");
    assert(fs[0].0 == "display_name"@);
    assert(fs[1].0 == "name"@);
    assert(fs[2].0 == "branding"@);
    assert(fs[3].0 == "metadata"@);
    assert(fs[4].0 == "enabled_connections"@);
    // Names of equal length differ at these letters.
    assert(fs[2].0[0] == 'b');
    assert(fs[3].0[0] == 'm');
    reveal_with_fuel(names_differ, 6);
    reveal_with_fuel(name_unused, 6);
    lemma_distinct_names(fs, fs.len() as int);
    lemma_fields_read_back(fs);
}

/// The body of an add-members request holds the member list under its
/// name, and nothing else.
pub proof fn lemma_add_members_wire(req: AddMembersRequest)
    ensures
        only_present_fields(req.wire_fields()),
        lookup(present(req.wire_fields()), "members"@) == Some(text_list(req.members@)),
{
    let fs = req.wire_fields();
    lemma_only_present_fields(fs);
    reveal_strlit("members");
    assert(fs[0].0 == "members"@);
    reveal_with_fuel(names_differ, 2);
    reveal_with_fuel(name_unused, 2);
    lemma_distinct_names(fs, fs.len() as int);
    lemma_fields_read_back(fs);
}

/// The first precondition of an add-members call that fails, as the
/// message that reports it.
pub open spec fn add_members_rejection(organization_id: Seq<char>, members: Seq<String>) -> Option<
    Seq<char>,
> {
    if organization_id.len() == 0 {
        Some("Organization ID cannot be empty"@)
    } else if members.len() == 0 {
        Some("Members array cannot be empty"@)
    } else {
        None
    }
}

/// Checks, before anything is sent, that an add-members call names an
/// organization and at least one user.
pub fn check_add_members(organization_id: &str, request: &AddMembersRequest) -> (r: Result<()>)
    ensures
        match add_members_rejection(organization_id@, request.members@) {
            Some(msg) => is_invalid_request(r, msg),
            None => r is Ok,
        },
{
    if organization_id.unicode_len() == 0 {
        return Err(Auth0Error::InvalidRequest(String::from_str("Organization ID cannot be empty")));
    }
    if request.members.len() == 0 {
        return Err(Auth0Error::InvalidRequest(String::from_str("Members array cannot be empty")));
    }
    Ok(())
}

} // verus!
