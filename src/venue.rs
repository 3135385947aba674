//! The payloads of venue responses and their JSON documents.
use vstd::prelude::*;

use crate::json::{
    array_value, bool_member, bool_value, field, insert_member, member, no_members, null_value,
    number_value, object_value, opt_bool_member, opt_member, opt_text_member, read_bool, read_opt_bool,
    read_opt_text, read_text, read_u16, read_u16_list, read_u32, string_value, text_member,
    tree_of, u16_list_json, u16_list_member, u16_list_round_trip, u16_list_value, u16_member,
    u32_member, u64_member, opt_u64_member, read_u64, read_opt_u64, views, JsonTree,
};
use crate::query::opt_text;

verus! {

/// A named group of items, such as the photos or the attributes of a venue.
#[derive(Clone, Debug, PartialEq)]
pub struct Group<I> {
    pub name: String,
    /// The kind of group, sent as `type`.
    pub group_type: String,
    /// How many items the group has in all, when the service says.
    pub count: Option<u64>,
    pub items: Vec<I>,
}

/// The abstract value of a [`Group`].
pub struct GroupView<V> {
    pub name: Seq<char>,
    pub group_type: Seq<char>,
    pub count: Option<u64>,
    pub items: Seq<V>,
}

impl<I: View> View for Group<I> {
    type V = GroupView<I::V>;

    open spec fn view(&self) -> GroupView<I::V> {
        GroupView { name: self.name@, group_type: self.group_type@, count: self.count, items: views(self.items@) }
    }
}

/// Ways to reach a venue; any of them may be missing.
#[derive(Clone, Debug, PartialEq)]
pub struct Contact {
    pub phone: Option<String>,
    pub formatted_phone: Option<String>,
    pub twitter: Option<String>,
    pub facebook: Option<String>,
    pub facebook_username: Option<String>,
    pub facebook_name: Option<String>,
}

/// The abstract value of [`Contact`].
pub struct ContactView {
    pub phone: Option<Seq<char>>,
    pub formatted_phone: Option<Seq<char>>,
    pub twitter: Option<Seq<char>>,
    pub facebook: Option<Seq<char>>,
    pub facebook_username: Option<Seq<char>>,
    pub facebook_name: Option<Seq<char>>,
}

impl View for Contact {
    type V = ContactView;

    open spec fn view(&self) -> ContactView {
        ContactView {
            phone: opt_text(self.phone),
            formatted_phone: opt_text(self.formatted_phone),
            twitter: opt_text(self.twitter),
            facebook: opt_text(self.facebook),
            facebook_username: opt_text(self.facebook_username),
            facebook_name: opt_text(self.facebook_name),
        }
    }
}

/// The [`Contact`] a document describes, if it describes one: an object with
/// each required member present and each member of the expected type.
pub open spec fn contact_from_json(j: JsonTree) -> Option<ContactView> {
    if j is Object {
        match (
            opt_text_member(j, "phone"@),
            opt_text_member(j, "formattedPhone"@),
            opt_text_member(j, "twitter"@),
            opt_text_member(j, "facebook"@),
            opt_text_member(j, "facebookUsername"@),
            opt_text_member(j, "facebookName"@),
        ) {
            (Some(phone), Some(formatted_phone), Some(twitter), Some(facebook), Some(facebook_username), Some(facebook_name)) => Some(ContactView { phone, formatted_phone, twitter, facebook, facebook_username, facebook_name }),
            _ => None,
        }
    } else {
        None
    }
}

/// The document of a [`Contact`]: an object with a member for each field,
/// null where an optional field is absent.
pub open spec fn contact_to_json(t: ContactView) -> JsonTree {
    JsonTree::Object(
        no_members()
            .insert("phone"@, match t.phone {
                Some(s) => JsonTree::Str(s),
                None => JsonTree::Null,
            })
            .insert("formattedPhone"@, match t.formatted_phone {
                Some(s) => JsonTree::Str(s),
                None => JsonTree::Null,
            })
            .insert("twitter"@, match t.twitter {
                Some(s) => JsonTree::Str(s),
                None => JsonTree::Null,
            })
            .insert("facebook"@, match t.facebook {
                Some(s) => JsonTree::Str(s),
                None => JsonTree::Null,
            })
            .insert("facebookUsername"@, match t.facebook_username {
                Some(s) => JsonTree::Str(s),
                None => JsonTree::Null,
            })
            .insert("facebookName"@, match t.facebook_name {
                Some(s) => JsonTree::Str(s),
                None => JsonTree::Null,
            })
    )
}

/// A [`Contact`] reads back from its own document unchanged, optional fields
/// included.
pub proof fn contact_round_trip(t: ContactView)
    ensures
        contact_from_json(contact_to_json(t)) == Some(t),
{
    reveal_strlit("phone");
    reveal_strlit("formattedPhone");
    reveal_strlit("twitter");
    reveal_strlit("facebook");
    reveal_strlit("facebookUsername");
    reveal_strlit("facebookName");
    // The member names differ, so each lookup finds its own member.
    assert("phone"@.len() != "formattedPhone"@.len());
    assert("phone"@.len() != "twitter"@.len());
    assert("phone"@.len() != "facebook"@.len());
    assert("phone"@.len() != "facebookUsername"@.len());
    assert("phone"@.len() != "facebookName"@.len());
    assert("formattedPhone"@.len() != "twitter"@.len());
    assert("formattedPhone"@.len() != "facebook"@.len());
    assert("formattedPhone"@.len() != "facebookUsername"@.len());
    assert("formattedPhone"@.len() != "facebookName"@.len());
    assert("twitter"@.len() != "facebook"@.len());
    assert("twitter"@.len() != "facebookUsername"@.len());
    assert("twitter"@.len() != "facebookName"@.len());
    assert("facebook"@.len() != "facebookUsername"@.len());
    assert("facebook"@.len() != "facebookName"@.len());
    assert("facebookUsername"@.len() != "facebookName"@.len());
}

impl Contact {
    /// Reads a [`Contact`] from a document; `None` when the document does not
    /// describe one.
    pub fn from_json(v: &serde_json::Value) -> (r: Option<Contact>)
        ensures
            match r {
                Some(t) => contact_from_json(tree_of(*v)) == Some(t@),
                None => contact_from_json(tree_of(*v)) is None,
            },
    {
        if !v.is_object() {
            return None;
        }
        let phone = match read_opt_text(v, "phone") {
            Some(x) => x,
            None => return None,
        };
        let formatted_phone = match read_opt_text(v, "formattedPhone") {
            Some(x) => x,
            None => return None,
        };
        let twitter = match read_opt_text(v, "twitter") {
            Some(x) => x,
            None => return None,
        };
        let facebook = match read_opt_text(v, "facebook") {
            Some(x) => x,
            None => return None,
        };
        let facebook_username = match read_opt_text(v, "facebookUsername") {
            Some(x) => x,
            None => return None,
        };
        let facebook_name = match read_opt_text(v, "facebookName") {
            Some(x) => x,
            None => return None,
        };
        let r = Contact { phone, formatted_phone, twitter, facebook, facebook_username, facebook_name };
        assert(r@ =~= contact_from_json(tree_of(*v))->Some_0);
        Some(r)
    }

    /// The document of this value, as [`contact_to_json`] describes it.
    pub fn to_json(&self) -> (r: serde_json::Value)
        ensures
            tree_of(r) == contact_to_json(self@),
    {
        let mut m = serde_json::Map::new();
        let phone = match &self.phone {
            Some(s) => string_value(s.clone()),
            None => null_value(),
        };
        insert_member(&mut m, String::from_str("phone"), phone);
        let formatted_phone = match &self.formatted_phone {
            Some(s) => string_value(s.clone()),
            None => null_value(),
        };
        insert_member(&mut m, String::from_str("formattedPhone"), formatted_phone);
        let twitter = match &self.twitter {
            Some(s) => string_value(s.clone()),
            None => null_value(),
        };
        insert_member(&mut m, String::from_str("twitter"), twitter);
        let facebook = match &self.facebook {
            Some(s) => string_value(s.clone()),
            None => null_value(),
        };
        insert_member(&mut m, String::from_str("facebook"), facebook);
        let facebook_username = match &self.facebook_username {
            Some(s) => string_value(s.clone()),
            None => null_value(),
        };
        insert_member(&mut m, String::from_str("facebookUsername"), facebook_username);
        let facebook_name = match &self.facebook_name {
            Some(s) => string_value(s.clone()),
            None => null_value(),
        };
        insert_member(&mut m, String::from_str("facebookName"), facebook_name);
        object_value(m)
    }
}

/// A price tier, from 1 (least pricey) to 4, with its description.
#[derive(Clone, Debug, PartialEq)]
pub struct Price {
    pub tier: u16,
    pub message: String,
    pub currency: String,
}

/// The abstract value of [`Price`].
pub struct PriceView {
    pub tier: u16,
    pub message: Seq<char>,
    pub currency: Seq<char>,
}

impl View for Price {
    type V = PriceView;

    open spec fn view(&self) -> PriceView {
        PriceView {
            tier: self.tier,
            message: self.message@,
            currency: self.currency@,
        }
    }
}

/// The [`Price`] a document describes, if it describes one: an object with
/// each required member present and each member of the expected type.
pub open spec fn price_from_json(j: JsonTree) -> Option<PriceView> {
    if j is Object {
        match (
            u16_member(j, "tier"@),
            text_member(j, "message"@),
            text_member(j, "currency"@),
        ) {
            (Some(tier), Some(message), Some(currency)) => Some(PriceView { tier, message, currency }),
            _ => None,
        }
    } else {
        None
    }
}

/// The document of a [`Price`]: an object with a member for each field,
/// null where an optional field is absent.
pub open spec fn price_to_json(t: PriceView) -> JsonTree {
    JsonTree::Object(
        no_members()
            .insert("tier"@, JsonTree::Int(t.tier as int))
            .insert("message"@, JsonTree::Str(t.message))
            .insert("currency"@, JsonTree::Str(t.currency))
    )
}

/// A [`Price`] reads back from its own document unchanged, optional fields
/// included.
pub proof fn price_round_trip(t: PriceView)
    ensures
        price_from_json(price_to_json(t)) == Some(t),
{
    reveal_strlit("tier");
    reveal_strlit("message");
    reveal_strlit("currency");
    // The member names differ, so each lookup finds its own member.
    assert("tier"@.len() != "message"@.len());
    assert("tier"@.len() != "currency"@.len());
    assert("message"@.len() != "currency"@.len());
}

impl Price {
    /// Reads a [`Price`] from a document; `None` when the document does not
    /// describe one.
    pub fn from_json(v: &serde_json::Value) -> (r: Option<Price>)
        ensures
            match r {
                Some(t) => price_from_json(tree_of(*v)) == Some(t@),
                None => price_from_json(tree_of(*v)) is None,
            },
    {
        if !v.is_object() {
            return None;
        }
        let tier = match read_u16(v, "tier") {
            Some(x) => x,
            None => return None,
        };
        let message = match read_text(v, "message") {
            Some(x) => x,
            None => return None,
        };
        let currency = match read_text(v, "currency") {
            Some(x) => x,
            None => return None,
        };
        let r = Price { tier, message, currency };
        assert(r@ =~= price_from_json(tree_of(*v))->Some_0);
        Some(r)
    }

    /// The document of this value, as [`price_to_json`] describes it.
    pub fn to_json(&self) -> (r: serde_json::Value)
        ensures
            tree_of(r) == price_to_json(self@),
    {
        let mut m = serde_json::Map::new();
        let tier = number_value(self.tier as u64);
        insert_member(&mut m, String::from_str("tier"), tier);
        let message = string_value(self.message.clone());
        insert_member(&mut m, String::from_str("message"), message);
        let currency = string_value(self.currency.clone());
        insert_member(&mut m, String::from_str("currency"), currency);
        object_value(m)
    }
}

/// The pieces of a category icon's URL; a size goes between them.
#[derive(Clone, Debug, PartialEq)]
pub struct Icon {
    pub prefix: String,
    pub suffix: String,
}

/// The abstract value of [`Icon`].
pub struct IconView {
    pub prefix: Seq<char>,
    pub suffix: Seq<char>,
}

impl View for Icon {
    type V = IconView;

    open spec fn view(&self) -> IconView {
        IconView {
            prefix: self.prefix@,
            suffix: self.suffix@,
        }
    }
}

/// The [`Icon`] a document describes, if it describes one: an object with
/// each required member present and each member of the expected type.
pub open spec fn icon_from_json(j: JsonTree) -> Option<IconView> {
    if j is Object {
        match (
            text_member(j, "prefix"@),
            text_member(j, "suffix"@),
        ) {
            (Some(prefix), Some(suffix)) => Some(IconView { prefix, suffix }),
            _ => None,
        }
    } else {
        None
    }
}

/// The document of a [`Icon`]: an object with a member for each field,
/// null where an optional field is absent.
pub open spec fn icon_to_json(t: IconView) -> JsonTree {
    JsonTree::Object(
        no_members()
            .insert("prefix"@, JsonTree::Str(t.prefix))
            .insert("suffix"@, JsonTree::Str(t.suffix))
    )
}

/// A [`Icon`] reads back from its own document unchanged, optional fields
/// included.
pub proof fn icon_round_trip(t: IconView)
    ensures
        icon_from_json(icon_to_json(t)) == Some(t),
{
    reveal_strlit("prefix");
    reveal_strlit("suffix");
    // The member names differ, so each lookup finds its own member.
    assert("prefix"@[0] != "suffix"@[0]);
}

impl Icon {
    /// Reads a [`Icon`] from a document; `None` when the document does not
    /// describe one.
    pub fn from_json(v: &serde_json::Value) -> (r: Option<Icon>)
        ensures
            match r {
                Some(t) => icon_from_json(tree_of(*v)) == Some(t@),
                None => icon_from_json(tree_of(*v)) is None,
            },
    {
        if !v.is_object() {
            return None;
        }
        let prefix = match read_text(v, "prefix") {
            Some(x) => x,
            None => return None,
        };
        let suffix = match read_text(v, "suffix") {
            Some(x) => x,
            None => return None,
        };
        let r = Icon { prefix, suffix };
        assert(r@ =~= icon_from_json(tree_of(*v))->Some_0);
        Some(r)
    }

    /// The document of this value, as [`icon_to_json`] describes it.
    pub fn to_json(&self) -> (r: serde_json::Value)
        ensures
            tree_of(r) == icon_to_json(self@),
    {
        let mut m = serde_json::Map::new();
        let prefix = string_value(self.prefix.clone());
        insert_member(&mut m, String::from_str("prefix"), prefix);
        let suffix = string_value(self.suffix.clone());
        insert_member(&mut m, String::from_str("suffix"), suffix);
        object_value(m)
    }
}

/// A venue category.
#[derive(Clone, Debug, PartialEq)]
pub struct Category {
    pub id: String,
    pub name: String,
    pub plural_name: String,
    pub short_name: String,
    pub icon: Icon,
    pub primary: Option<bool>,
}

/// The abstract value of [`Category`].
pub struct CategoryView {
    pub id: Seq<char>,
    pub name: Seq<char>,
    pub plural_name: Seq<char>,
    pub short_name: Seq<char>,
    pub icon: IconView,
    pub primary: Option<bool>,
}

impl View for Category {
    type V = CategoryView;

    open spec fn view(&self) -> CategoryView {
        CategoryView {
            id: self.id@,
            name: self.name@,
            plural_name: self.plural_name@,
            short_name: self.short_name@,
            icon: self.icon@,
            primary: self.primary,
        }
    }
}

/// The [`Category`] a document describes, if it describes one: an object with
/// each required member present and each member of the expected type.
pub open spec fn category_from_json(j: JsonTree) -> Option<CategoryView> {
    if j is Object {
        match (
            text_member(j, "id"@),
            text_member(j, "name"@),
            text_member(j, "pluralName"@),
            text_member(j, "shortName"@),
            match field(j, "icon"@) {
                Some(x) => icon_from_json(x),
                None => None,
            },
            opt_bool_member(j, "primary"@),
        ) {
            (Some(id), Some(name), Some(plural_name), Some(short_name), Some(icon), Some(primary)) => Some(CategoryView { id, name, plural_name, short_name, icon, primary }),
            _ => None,
        }
    } else {
        None
    }
}

/// The document of a [`Category`]: an object with a member for each field,
/// null where an optional field is absent.
pub open spec fn category_to_json(t: CategoryView) -> JsonTree {
    JsonTree::Object(
        no_members()
            .insert("id"@, JsonTree::Str(t.id))
            .insert("name"@, JsonTree::Str(t.name))
            .insert("pluralName"@, JsonTree::Str(t.plural_name))
            .insert("shortName"@, JsonTree::Str(t.short_name))
            .insert("icon"@, icon_to_json(t.icon))
            .insert("primary"@, match t.primary {
                Some(b) => JsonTree::Bool(b),
                None => JsonTree::Null,
            })
    )
}

/// A [`Category`] reads back from its own document unchanged, optional fields
/// included.
pub proof fn category_round_trip(t: CategoryView)
    ensures
        category_from_json(category_to_json(t)) == Some(t),
{
    reveal_strlit("id");
    reveal_strlit("name");
    reveal_strlit("pluralName");
    reveal_strlit("shortName");
    reveal_strlit("icon");
    reveal_strlit("primary");
    // The member names differ, so each lookup finds its own member.
    assert("id"@.len() != "name"@.len());
    assert("id"@.len() != "pluralName"@.len());
    assert("id"@.len() != "shortName"@.len());
    assert("id"@.len() != "icon"@.len());
    assert("id"@.len() != "primary"@.len());
    assert("name"@.len() != "pluralName"@.len());
    assert("name"@.len() != "shortName"@.len());
    assert("name"@[0] != "icon"@[0]);
    assert("name"@.len() != "primary"@.len());
    assert("pluralName"@.len() != "shortName"@.len());
    assert("pluralName"@.len() != "icon"@.len());
    assert("pluralName"@.len() != "primary"@.len());
    assert("shortName"@.len() != "icon"@.len());
    assert("shortName"@.len() != "primary"@.len());
    assert("icon"@.len() != "primary"@.len());
    icon_round_trip(t.icon);
}

impl Category {
    /// Reads a [`Category`] from a document; `None` when the document does not
    /// describe one.
    pub fn from_json(v: &serde_json::Value) -> (r: Option<Category>)
        ensures
            match r {
                Some(t) => category_from_json(tree_of(*v)) == Some(t@),
                None => category_from_json(tree_of(*v)) is None,
            },
    {
        if !v.is_object() {
            return None;
        }
        let id = match read_text(v, "id") {
            Some(x) => x,
            None => return None,
        };
        let name = match read_text(v, "name") {
            Some(x) => x,
            None => return None,
        };
        let plural_name = match read_text(v, "pluralName") {
            Some(x) => x,
            None => return None,
        };
        let short_name = match read_text(v, "shortName") {
            Some(x) => x,
            None => return None,
        };
        let icon = match member(v, "icon") {
            Some(x) => match Icon::from_json(x) {
                Some(t) => t,
                None => return None,
            },
            None => return None,
        };
        let primary = match read_opt_bool(v, "primary") {
            Some(x) => x,
            None => return None,
        };
        let r = Category { id, name, plural_name, short_name, icon, primary };
        assert(r@ =~= category_from_json(tree_of(*v))->Some_0);
        Some(r)
    }

    /// The document of this value, as [`category_to_json`] describes it.
    pub fn to_json(&self) -> (r: serde_json::Value)
        ensures
            tree_of(r) == category_to_json(self@),
    {
        let mut m = serde_json::Map::new();
        let id = string_value(self.id.clone());
        insert_member(&mut m, String::from_str("id"), id);
        let name = string_value(self.name.clone());
        insert_member(&mut m, String::from_str("name"), name);
        let plural_name = string_value(self.plural_name.clone());
        insert_member(&mut m, String::from_str("pluralName"), plural_name);
        let short_name = string_value(self.short_name.clone());
        insert_member(&mut m, String::from_str("shortName"), short_name);
        let icon = self.icon.to_json();
        insert_member(&mut m, String::from_str("icon"), icon);
        let primary = match self.primary {
            Some(b) => bool_value(b),
            None => null_value(),
        };
        insert_member(&mut m, String::from_str("primary"), primary);
        object_value(m)
    }
}

/// Where a venue's menu can be read.
#[derive(Clone, Debug, PartialEq)]
pub struct Menu {
    pub label: String,
    pub url: String,
}

/// The abstract value of [`Menu`].
pub struct MenuView {
    pub label: Seq<char>,
    pub url: Seq<char>,
}

impl View for Menu {
    type V = MenuView;

    open spec fn view(&self) -> MenuView {
        MenuView {
            label: self.label@,
            url: self.url@,
        }
    }
}

/// The [`Menu`] a document describes, if it describes one: an object with
/// each required member present and each member of the expected type.
pub open spec fn menu_from_json(j: JsonTree) -> Option<MenuView> {
    if j is Object {
        match (
            text_member(j, "label"@),
            text_member(j, "url"@),
        ) {
            (Some(label), Some(url)) => Some(MenuView { label, url }),
            _ => None,
        }
    } else {
        None
    }
}

/// The document of a [`Menu`]: an object with a member for each field,
/// null where an optional field is absent.
pub open spec fn menu_to_json(t: MenuView) -> JsonTree {
    JsonTree::Object(
        no_members()
            .insert("label"@, JsonTree::Str(t.label))
            .insert("url"@, JsonTree::Str(t.url))
    )
}

/// A [`Menu`] reads back from its own document unchanged, optional fields
/// included.
pub proof fn menu_round_trip(t: MenuView)
    ensures
        menu_from_json(menu_to_json(t)) == Some(t),
{
    reveal_strlit("label");
    reveal_strlit("url");
    // The member names differ, so each lookup finds its own member.
    assert("label"@.len() != "url"@.len());
}

impl Menu {
    /// Reads a [`Menu`] from a document; `None` when the document does not
    /// describe one.
    pub fn from_json(v: &serde_json::Value) -> (r: Option<Menu>)
        ensures
            match r {
                Some(t) => menu_from_json(tree_of(*v)) == Some(t@),
                None => menu_from_json(tree_of(*v)) is None,
            },
    {
        if !v.is_object() {
            return None;
        }
        let label = match read_text(v, "label") {
            Some(x) => x,
            None => return None,
        };
        let url = match read_text(v, "url") {
            Some(x) => x,
            None => return None,
        };
        let r = Menu { label, url };
        assert(r@ =~= menu_from_json(tree_of(*v))->Some_0);
        Some(r)
    }

    /// The document of this value, as [`menu_to_json`] describes it.
    pub fn to_json(&self) -> (r: serde_json::Value)
        ensures
            tree_of(r) == menu_to_json(self@),
    {
        let mut m = serde_json::Map::new();
        let label = string_value(self.label.clone());
        insert_member(&mut m, String::from_str("label"), label);
        let url = string_value(self.url.clone());
        insert_member(&mut m, String::from_str("url"), url);
        object_value(m)
    }
}

/// The pieces of a user photo's URL.
#[derive(Clone, Debug, PartialEq)]
pub struct UserPhoto {
    pub prefix: String,
    pub suffix: String,
}

/// The abstract value of [`UserPhoto`].
pub struct UserPhotoView {
    pub prefix: Seq<char>,
    pub suffix: Seq<char>,
}

impl View for UserPhoto {
    type V = UserPhotoView;

    open spec fn view(&self) -> UserPhotoView {
        UserPhotoView {
            prefix: self.prefix@,
            suffix: self.suffix@,
        }
    }
}

/// The [`UserPhoto`] a document describes, if it describes one: an object with
/// each required member present and each member of the expected type.
pub open spec fn user_photo_from_json(j: JsonTree) -> Option<UserPhotoView> {
    if j is Object {
        match (
            text_member(j, "prefix"@),
            text_member(j, "suffix"@),
        ) {
            (Some(prefix), Some(suffix)) => Some(UserPhotoView { prefix, suffix }),
            _ => None,
        }
    } else {
        None
    }
}

/// The document of a [`UserPhoto`]: an object with a member for each field,
/// null where an optional field is absent.
pub open spec fn user_photo_to_json(t: UserPhotoView) -> JsonTree {
    JsonTree::Object(
        no_members()
            .insert("prefix"@, JsonTree::Str(t.prefix))
            .insert("suffix"@, JsonTree::Str(t.suffix))
    )
}

/// A [`UserPhoto`] reads back from its own document unchanged, optional fields
/// included.
pub proof fn user_photo_round_trip(t: UserPhotoView)
    ensures
        user_photo_from_json(user_photo_to_json(t)) == Some(t),
{
    reveal_strlit("prefix");
    reveal_strlit("suffix");
    // The member names differ, so each lookup finds its own member.
    assert("prefix"@[0] != "suffix"@[0]);
}

impl UserPhoto {
    /// Reads a [`UserPhoto`] from a document; `None` when the document does not
    /// describe one.
    pub fn from_json(v: &serde_json::Value) -> (r: Option<UserPhoto>)
        ensures
            match r {
                Some(t) => user_photo_from_json(tree_of(*v)) == Some(t@),
                None => user_photo_from_json(tree_of(*v)) is None,
            },
    {
        if !v.is_object() {
            return None;
        }
        let prefix = match read_text(v, "prefix") {
            Some(x) => x,
            None => return None,
        };
        let suffix = match read_text(v, "suffix") {
            Some(x) => x,
            None => return None,
        };
        let r = UserPhoto { prefix, suffix };
        assert(r@ =~= user_photo_from_json(tree_of(*v))->Some_0);
        Some(r)
    }

    /// The document of this value, as [`user_photo_to_json`] describes it.
    pub fn to_json(&self) -> (r: serde_json::Value)
        ensures
            tree_of(r) == user_photo_to_json(self@),
    {
        let mut m = serde_json::Map::new();
        let prefix = string_value(self.prefix.clone());
        insert_member(&mut m, String::from_str("prefix"), prefix);
        let suffix = string_value(self.suffix.clone());
        insert_member(&mut m, String::from_str("suffix"), suffix);
        object_value(m)
    }
}

/// A member of the service.
#[derive(Clone, Debug, PartialEq)]
pub struct User {
    pub id: String,
    pub first_name: String,
    pub last_name: Option<String>,
    pub photo: UserPhoto,
}

/// The abstract value of [`User`].
pub struct UserView {
    pub id: Seq<char>,
    pub first_name: Seq<char>,
    pub last_name: Option<Seq<char>>,
    pub photo: UserPhotoView,
}

impl View for User {
    type V = UserView;

    open spec fn view(&self) -> UserView {
        UserView {
            id: self.id@,
            first_name: self.first_name@,
            last_name: opt_text(self.last_name),
            photo: self.photo@,
        }
    }
}

/// The [`User`] a document describes, if it describes one: an object with
/// each required member present and each member of the expected type.
pub open spec fn user_from_json(j: JsonTree) -> Option<UserView> {
    if j is Object {
        match (
            text_member(j, "id"@),
            text_member(j, "firstName"@),
            opt_text_member(j, "lastName"@),
            match field(j, "photo"@) {
                Some(x) => user_photo_from_json(x),
                None => None,
            },
        ) {
            (Some(id), Some(first_name), Some(last_name), Some(photo)) => Some(UserView { id, first_name, last_name, photo }),
            _ => None,
        }
    } else {
        None
    }
}

/// The document of a [`User`]: an object with a member for each field,
/// null where an optional field is absent.
pub open spec fn user_to_json(t: UserView) -> JsonTree {
    JsonTree::Object(
        no_members()
            .insert("id"@, JsonTree::Str(t.id))
            .insert("firstName"@, JsonTree::Str(t.first_name))
            .insert("lastName"@, match t.last_name {
                Some(s) => JsonTree::Str(s),
                None => JsonTree::Null,
            })
            .insert("photo"@, user_photo_to_json(t.photo))
    )
}

/// A [`User`] reads back from its own document unchanged, optional fields
/// included.
pub proof fn user_round_trip(t: UserView)
    ensures
        user_from_json(user_to_json(t)) == Some(t),
{
    reveal_strlit("id");
    reveal_strlit("firstName");
    reveal_strlit("lastName");
    reveal_strlit("photo");
    // The member names differ, so each lookup finds its own member.
    assert("id"@.len() != "firstName"@.len());
    assert("id"@.len() != "lastName"@.len());
    assert("id"@.len() != "photo"@.len());
    assert("firstName"@.len() != "lastName"@.len());
    assert("firstName"@.len() != "photo"@.len());
    assert("lastName"@.len() != "photo"@.len());
    user_photo_round_trip(t.photo);
}

impl User {
    /// Reads a [`User`] from a document; `None` when the document does not
    /// describe one.
    pub fn from_json(v: &serde_json::Value) -> (r: Option<User>)
        ensures
            match r {
                Some(t) => user_from_json(tree_of(*v)) == Some(t@),
                None => user_from_json(tree_of(*v)) is None,
            },
    {
        if !v.is_object() {
            return None;
        }
        let id = match read_text(v, "id") {
            Some(x) => x,
            None => return None,
        };
        let first_name = match read_text(v, "firstName") {
            Some(x) => x,
            None => return None,
        };
        let last_name = match read_opt_text(v, "lastName") {
            Some(x) => x,
            None => return None,
        };
        let photo = match member(v, "photo") {
            Some(x) => match UserPhoto::from_json(x) {
                Some(t) => t,
                None => return None,
            },
            None => return None,
        };
        let r = User { id, first_name, last_name, photo };
        assert(r@ =~= user_from_json(tree_of(*v))->Some_0);
        Some(r)
    }

    /// The document of this value, as [`user_to_json`] describes it.
    pub fn to_json(&self) -> (r: serde_json::Value)
        ensures
            tree_of(r) == user_to_json(self@),
    {
        let mut m = serde_json::Map::new();
        let id = string_value(self.id.clone());
        insert_member(&mut m, String::from_str("id"), id);
        let first_name = string_value(self.first_name.clone());
        insert_member(&mut m, String::from_str("firstName"), first_name);
        let last_name = match &self.last_name {
            Some(s) => string_value(s.clone()),
            None => null_value(),
        };
        insert_member(&mut m, String::from_str("lastName"), last_name);
        let photo = self.photo.to_json();
        insert_member(&mut m, String::from_str("photo"), photo);
        object_value(m)
    }
}

/// A venue photo.
#[derive(Clone, Debug, PartialEq)]
pub struct PhotoItem {
    pub id: String,
    pub prefix: String,
    pub suffix: String,
    pub width: u16,
    pub height: u16,
    pub user: Option<User>,
    /// Who may see the photo.
    pub visibility: String,
}

/// The abstract value of [`PhotoItem`].
pub struct PhotoItemView {
    pub id: Seq<char>,
    pub prefix: Seq<char>,
    pub suffix: Seq<char>,
    pub width: u16,
    pub height: u16,
    pub user: Option<UserView>,
    pub visibility: Seq<char>,
}

impl View for PhotoItem {
    type V = PhotoItemView;

    open spec fn view(&self) -> PhotoItemView {
        PhotoItemView {
            id: self.id@,
            prefix: self.prefix@,
            suffix: self.suffix@,
            width: self.width,
            height: self.height,
            user: match self.user {
                Some(x) => Some(x@),
                None => None,
            },
            visibility: self.visibility@,
        }
    }
}

/// The [`PhotoItem`] a document describes, if it describes one: an object with
/// each required member present and each member of the expected type.
pub open spec fn photo_item_from_json(j: JsonTree) -> Option<PhotoItemView> {
    if j is Object {
        match (
            text_member(j, "id"@),
            text_member(j, "prefix"@),
            text_member(j, "suffix"@),
            u16_member(j, "width"@),
            u16_member(j, "height"@),
            opt_member(j, "user"@, |x: JsonTree| user_from_json(x)),
            text_member(j, "visibility"@),
        ) {
            (Some(id), Some(prefix), Some(suffix), Some(width), Some(height), Some(user), Some(visibility)) => Some(PhotoItemView { id, prefix, suffix, width, height, user, visibility }),
            _ => None,
        }
    } else {
        None
    }
}

/// The document of a [`PhotoItem`]: an object with a member for each field,
/// null where an optional field is absent.
pub open spec fn photo_item_to_json(t: PhotoItemView) -> JsonTree {
    JsonTree::Object(
        no_members()
            .insert("id"@, JsonTree::Str(t.id))
            .insert("prefix"@, JsonTree::Str(t.prefix))
            .insert("suffix"@, JsonTree::Str(t.suffix))
            .insert("width"@, JsonTree::Int(t.width as int))
            .insert("height"@, JsonTree::Int(t.height as int))
            .insert("user"@, match t.user {
                Some(v) => user_to_json(v),
                None => JsonTree::Null,
            })
            .insert("visibility"@, JsonTree::Str(t.visibility))
    )
}

/// A [`PhotoItem`] reads back from its own document unchanged, optional fields
/// included.
pub proof fn photo_item_round_trip(t: PhotoItemView)
    ensures
        photo_item_from_json(photo_item_to_json(t)) == Some(t),
{
    reveal_strlit("id");
    reveal_strlit("prefix");
    reveal_strlit("suffix");
    reveal_strlit("width");
    reveal_strlit("height");
    reveal_strlit("user");
    reveal_strlit("visibility");
    // The member names differ, so each lookup finds its own member.
    assert("id"@.len() != "prefix"@.len());
    assert("id"@.len() != "suffix"@.len());
    assert("id"@.len() != "width"@.len());
    assert("id"@.len() != "height"@.len());
    assert("id"@.len() != "user"@.len());
    assert("id"@.len() != "visibility"@.len());
    assert("prefix"@[0] != "suffix"@[0]);
    assert("prefix"@.len() != "width"@.len());
    assert("prefix"@[0] != "height"@[0]);
    assert("prefix"@.len() != "user"@.len());
    assert("prefix"@.len() != "visibility"@.len());
    assert("suffix"@.len() != "width"@.len());
    assert("suffix"@[0] != "height"@[0]);
    assert("suffix"@.len() != "user"@.len());
    assert("suffix"@.len() != "visibility"@.len());
    assert("width"@.len() != "height"@.len());
    assert("width"@.len() != "user"@.len());
    assert("width"@.len() != "visibility"@.len());
    assert("height"@.len() != "user"@.len());
    assert("height"@.len() != "visibility"@.len());
    assert("user"@.len() != "visibility"@.len());
    match t.user {
        Some(v) => user_round_trip(v),
        None => {},
    }
}

impl PhotoItem {
    /// Reads a [`PhotoItem`] from a document; `None` when the document does not
    /// describe one.
    pub fn from_json(v: &serde_json::Value) -> (r: Option<PhotoItem>)
        ensures
            match r {
                Some(t) => photo_item_from_json(tree_of(*v)) == Some(t@),
                None => photo_item_from_json(tree_of(*v)) is None,
            },
    {
        if !v.is_object() {
            return None;
        }
        let id = match read_text(v, "id") {
            Some(x) => x,
            None => return None,
        };
        let prefix = match read_text(v, "prefix") {
            Some(x) => x,
            None => return None,
        };
        let suffix = match read_text(v, "suffix") {
            Some(x) => x,
            None => return None,
        };
        let width = match read_u16(v, "width") {
            Some(x) => x,
            None => return None,
        };
        let height = match read_u16(v, "height") {
            Some(x) => x,
            None => return None,
        };
        let user = match member(v, "user") {
            Some(x) => if x.is_null() {
                None
            } else {
                match User::from_json(x) {
                    Some(t) => Some(t),
                    None => return None,
                }
            },
            None => None,
        };
        let visibility = match read_text(v, "visibility") {
            Some(x) => x,
            None => return None,
        };
        let r = PhotoItem { id, prefix, suffix, width, height, user, visibility };
        assert(r@ =~= photo_item_from_json(tree_of(*v))->Some_0);
        Some(r)
    }

    /// The document of this value, as [`photo_item_to_json`] describes it.
    pub fn to_json(&self) -> (r: serde_json::Value)
        ensures
            tree_of(r) == photo_item_to_json(self@),
    {
        let mut m = serde_json::Map::new();
        let id = string_value(self.id.clone());
        insert_member(&mut m, String::from_str("id"), id);
        let prefix = string_value(self.prefix.clone());
        insert_member(&mut m, String::from_str("prefix"), prefix);
        let suffix = string_value(self.suffix.clone());
        insert_member(&mut m, String::from_str("suffix"), suffix);
        let width = number_value(self.width as u64);
        insert_member(&mut m, String::from_str("width"), width);
        let height = number_value(self.height as u64);
        insert_member(&mut m, String::from_str("height"), height);
        let user = match &self.user {
            Some(t) => t.to_json(),
            None => null_value(),
        };
        insert_member(&mut m, String::from_str("user"), user);
        let visibility = string_value(self.visibility.clone());
        insert_member(&mut m, String::from_str("visibility"), visibility);
        object_value(m)
    }
}

/// The abstract values of a list of [`PhotoItem`].
pub open spec fn photo_item_seq_view(s: Seq<PhotoItem>) -> Seq<PhotoItemView> {
    views(s)
}

/// The [`PhotoItem`] values a list of documents describes, if each describes one.
pub open spec fn photo_item_list_from_json(xs: Seq<JsonTree>) -> Option<Seq<PhotoItemView>> {
    if forall|i: int| 0 <= i < xs.len() ==> (#[trigger] photo_item_from_json(xs[i])) is Some {
        Some(Seq::new(xs.len(), |i: int| photo_item_from_json(xs[i])->Some_0))
    } else {
        None
    }
}

/// The documents of a list of [`PhotoItem`] values.
pub open spec fn photo_item_list_to_json(s: Seq<PhotoItemView>) -> Seq<JsonTree> {
    Seq::new(s.len(), |i: int| photo_item_to_json(s[i]))
}

/// A list of [`PhotoItem`] values reads back from its documents unchanged.
pub proof fn photo_item_list_round_trip(s: Seq<PhotoItemView>)
    ensures
        photo_item_list_from_json(photo_item_list_to_json(s)) == Some(s),
{
    let xs = photo_item_list_to_json(s);
    assert forall|i: int| 0 <= i < xs.len() implies (#[trigger] photo_item_from_json(xs[i])) == Some(s[i]) by {
        photo_item_round_trip(s[i]);
    }
    assert(Seq::new(xs.len(), |i: int| photo_item_from_json(xs[i])->Some_0) =~= s);
}

fn photo_item_list_from_values(xs: &Vec<serde_json::Value>, Ghost(trees): Ghost<Seq<JsonTree>>) -> (r: Option<Vec<PhotoItem>>)
    requires
        xs@.len() == trees.len(),
        forall|k: int| 0 <= k < xs@.len() ==> #[trigger] tree_of(xs@[k]) == trees[k],
    ensures
        match r {
            Some(l) => photo_item_list_from_json(trees) == Some(photo_item_seq_view(l@)),
            None => photo_item_list_from_json(trees) is None,
        },
{
    let mut out: Vec<PhotoItem> = Vec::new();
    let mut i: usize = 0;
    while i < xs.len()
        invariant
            i <= xs.len(),
            xs@.len() == trees.len(),
            forall|k: int| 0 <= k < xs@.len() ==> #[trigger] tree_of(xs@[k]) == trees[k],
            out@.len() == i,
            forall|k: int| 0 <= k < i ==> photo_item_from_json(trees[k]) == Some((#[trigger] out@[k])@),
        decreases xs.len() - i,
    {
        match PhotoItem::from_json(&xs[i]) {
            Some(t) => out.push(t),
            None => {
                assert(photo_item_from_json(trees[i as int]) is None);
                return None;
            },
        }
        i = i + 1;
    }
    assert forall|k: int| 0 <= k < trees.len() implies (#[trigger] photo_item_from_json(trees[k])) is Some by {
        assert(photo_item_from_json(trees[k]) == Some(out@[k]@));
    }
    assert(photo_item_seq_view(out@) =~= Seq::new(trees.len(), |k: int| photo_item_from_json(trees[k])->Some_0));
    Some(out)
}

fn photo_item_list_to_values(items: &Vec<PhotoItem>) -> (r: Vec<serde_json::Value>)
    ensures
        r@.len() == items@.len(),
        forall|k: int| 0 <= k < items@.len() ==> tree_of(#[trigger] r@[k]) == photo_item_to_json(items@[k]@),
{
    let mut out: Vec<serde_json::Value> = Vec::new();
    let mut i: usize = 0;
    while i < items.len()
        invariant
            i <= items.len(),
            out@.len() == i,
            forall|k: int| 0 <= k < i ==> tree_of(#[trigger] out@[k]) == photo_item_to_json(items@[k]@),
        decreases items.len() - i,
    {
        out.push(items[i].to_json());
        i = i + 1;
    }
    out
}

/// The `Group` of photos a document describes, if it describes one: an object with
/// each required member present and each member of the expected type.
pub open spec fn photo_group_from_json(j: JsonTree) -> Option<GroupView<PhotoItemView>> {
    if j is Object {
        match (
            text_member(j, "name"@),
            text_member(j, "type"@),
            opt_u64_member(j, "count"@),
            match field(j, "items"@) {
                Some(JsonTree::Array(xs)) => photo_item_list_from_json(xs),
                _ => None,
            },
        ) {
            (Some(name), Some(group_type), Some(count), Some(items)) => Some(GroupView { name, group_type, count, items }),
            _ => None,
        }
    } else {
        None
    }
}

/// The document of a `Group` of photos: an object with a member for each field,
/// null where an optional field is absent.
pub open spec fn photo_group_to_json(t: GroupView<PhotoItemView>) -> JsonTree {
    JsonTree::Object(
        no_members()
            .insert("name"@, JsonTree::Str(t.name))
            .insert("type"@, JsonTree::Str(t.group_type))
            .insert("count"@, match t.count {
                Some(n) => JsonTree::Int(n as int),
                None => JsonTree::Null,
            })
            .insert("items"@, JsonTree::Array(photo_item_list_to_json(t.items)))
    )
}

/// A `Group` of photos reads back from its own document unchanged, optional fields
/// included.
pub proof fn photo_group_round_trip(t: GroupView<PhotoItemView>)
    ensures
        photo_group_from_json(photo_group_to_json(t)) == Some(t),
{
    reveal_strlit("name");
    reveal_strlit("type");
    reveal_strlit("count");
    reveal_strlit("items");
    // The member names differ, so each lookup finds its own member.
    assert("name"@[0] != "type"@[0]);
    assert("name"@.len() != "count"@.len());
    assert("name"@.len() != "items"@.len());
    assert("type"@.len() != "count"@.len());
    assert("type"@.len() != "items"@.len());
    assert("count"@[0] != "items"@[0]);
    photo_item_list_round_trip(t.items);
}

impl Group<PhotoItem> {
    /// Reads a `Group` of photos from a document; `None` when the document does not
    /// describe one.
    pub fn from_json(v: &serde_json::Value) -> (r: Option<Group<PhotoItem>>)
        ensures
            match r {
                Some(t) => photo_group_from_json(tree_of(*v)) == Some(t@),
                None => photo_group_from_json(tree_of(*v)) is None,
            },
    {
        if !v.is_object() {
            return None;
        }
        let name = match read_text(v, "name") {
            Some(x) => x,
            None => return None,
        };
        let group_type = match read_text(v, "type") {
            Some(x) => x,
            None => return None,
        };
        let count = match read_opt_u64(v, "count") {
            Some(x) => x,
            None => return None,
        };
        let items = match member(v, "items") {
            Some(x) => match x.as_array() {
                Some(xs) => match photo_item_list_from_values(xs, Ghost(tree_of(*x)->Array_0)) {
                    Some(l) => l,
                    None => return None,
                },
                None => return None,
            },
            None => return None,
        };
        let r = Group { name, group_type, count, items };
        assert(r@ =~= photo_group_from_json(tree_of(*v))->Some_0);
        Some(r)
    }

    /// The document of this value, as [`photo_group_to_json`] describes it.
    pub fn to_json(&self) -> (r: serde_json::Value)
        ensures
            tree_of(r) == photo_group_to_json(self@),
    {
        let mut m = serde_json::Map::new();
        let name = string_value(self.name.clone());
        insert_member(&mut m, String::from_str("name"), name);
        let group_type = string_value(self.group_type.clone());
        insert_member(&mut m, String::from_str("type"), group_type);
        let count = match self.count {
            Some(n) => number_value(n),
            None => null_value(),
        };
        insert_member(&mut m, String::from_str("count"), count);
        let items = {
            let a = array_value(photo_item_list_to_values(&self.items));
            assert(tree_of(a)->Array_0 =~= photo_item_list_to_json(photo_item_seq_view(self.items@)));
            a
        };
        insert_member(&mut m, String::from_str("items"), items);
        object_value(m)
    }
}

/// The abstract values of a list of `Group` of photos.
pub open spec fn photo_group_seq_view(s: Seq<Group<PhotoItem>>) -> Seq<GroupView<PhotoItemView>> {
    views(s)
}

/// The `Group` of photos values a list of documents describes, if each describes one.
pub open spec fn photo_group_list_from_json(xs: Seq<JsonTree>) -> Option<Seq<GroupView<PhotoItemView>>> {
    if forall|i: int| 0 <= i < xs.len() ==> (#[trigger] photo_group_from_json(xs[i])) is Some {
        Some(Seq::new(xs.len(), |i: int| photo_group_from_json(xs[i])->Some_0))
    } else {
        None
    }
}

/// The documents of a list of `Group` of photos values.
pub open spec fn photo_group_list_to_json(s: Seq<GroupView<PhotoItemView>>) -> Seq<JsonTree> {
    Seq::new(s.len(), |i: int| photo_group_to_json(s[i]))
}

/// A list of `Group` of photos values reads back from its documents unchanged.
pub proof fn photo_group_list_round_trip(s: Seq<GroupView<PhotoItemView>>)
    ensures
        photo_group_list_from_json(photo_group_list_to_json(s)) == Some(s),
{
    let xs = photo_group_list_to_json(s);
    assert forall|i: int| 0 <= i < xs.len() implies (#[trigger] photo_group_from_json(xs[i])) == Some(s[i]) by {
        photo_group_round_trip(s[i]);
    }
    assert(Seq::new(xs.len(), |i: int| photo_group_from_json(xs[i])->Some_0) =~= s);
}

fn photo_group_list_from_values(xs: &Vec<serde_json::Value>, Ghost(trees): Ghost<Seq<JsonTree>>) -> (r: Option<Vec<Group<PhotoItem>>>)
    requires
        xs@.len() == trees.len(),
        forall|k: int| 0 <= k < xs@.len() ==> #[trigger] tree_of(xs@[k]) == trees[k],
    ensures
        match r {
            Some(l) => photo_group_list_from_json(trees) == Some(photo_group_seq_view(l@)),
            None => photo_group_list_from_json(trees) is None,
        },
{
    let mut out: Vec<Group<PhotoItem>> = Vec::new();
    let mut i: usize = 0;
    while i < xs.len()
        invariant
            i <= xs.len(),
            xs@.len() == trees.len(),
            forall|k: int| 0 <= k < xs@.len() ==> #[trigger] tree_of(xs@[k]) == trees[k],
            out@.len() == i,
            forall|k: int| 0 <= k < i ==> photo_group_from_json(trees[k]) == Some((#[trigger] out@[k])@),
        decreases xs.len() - i,
    {
        match Group::<PhotoItem>::from_json(&xs[i]) {
            Some(t) => out.push(t),
            None => {
                assert(photo_group_from_json(trees[i as int]) is None);
                return None;
            },
        }
        i = i + 1;
    }
    assert forall|k: int| 0 <= k < trees.len() implies (#[trigger] photo_group_from_json(trees[k])) is Some by {
        assert(photo_group_from_json(trees[k]) == Some(out@[k]@));
    }
    assert(photo_group_seq_view(out@) =~= Seq::new(trees.len(), |k: int| photo_group_from_json(trees[k])->Some_0));
    Some(out)
}

fn photo_group_list_to_values(items: &Vec<Group<PhotoItem>>) -> (r: Vec<serde_json::Value>)
    ensures
        r@.len() == items@.len(),
        forall|k: int| 0 <= k < items@.len() ==> tree_of(#[trigger] r@[k]) == photo_group_to_json(items@[k]@),
{
    let mut out: Vec<serde_json::Value> = Vec::new();
    let mut i: usize = 0;
    while i < items.len()
        invariant
            i <= items.len(),
            out@.len() == i,
            forall|k: int| 0 <= k < i ==> tree_of(#[trigger] out@[k]) == photo_group_to_json(items@[k]@),
        decreases items.len() - i,
    {
        out.push(items[i].to_json());
        i = i + 1;
    }
    out
}

/// The photos of a venue, in groups, and how many there are.
#[derive(Clone, Debug, PartialEq)]
pub struct Photos {
    pub count: u64,
    pub groups: Vec<Group<PhotoItem>>,
}

/// The abstract value of [`Photos`].
pub struct PhotosView {
    pub count: u64,
    pub groups: Seq<GroupView<PhotoItemView>>,
}

impl View for Photos {
    type V = PhotosView;

    open spec fn view(&self) -> PhotosView {
        PhotosView {
            count: self.count,
            groups: photo_group_seq_view(self.groups@),
        }
    }
}

/// The [`Photos`] a document describes, if it describes one: an object with
/// each required member present and each member of the expected type.
pub open spec fn photos_from_json(j: JsonTree) -> Option<PhotosView> {
    if j is Object {
        match (
            u64_member(j, "count"@),
            match field(j, "groups"@) {
                Some(JsonTree::Array(xs)) => photo_group_list_from_json(xs),
                _ => None,
            },
        ) {
            (Some(count), Some(groups)) => Some(PhotosView { count, groups }),
            _ => None,
        }
    } else {
        None
    }
}

/// The document of a [`Photos`]: an object with a member for each field,
/// null where an optional field is absent.
pub open spec fn photos_to_json(t: PhotosView) -> JsonTree {
    JsonTree::Object(
        no_members()
            .insert("count"@, JsonTree::Int(t.count as int))
            .insert("groups"@, JsonTree::Array(photo_group_list_to_json(t.groups)))
    )
}

/// A [`Photos`] reads back from its own document unchanged, optional fields
/// included.
pub proof fn photos_round_trip(t: PhotosView)
    ensures
        photos_from_json(photos_to_json(t)) == Some(t),
{
    reveal_strlit("count");
    reveal_strlit("groups");
    // The member names differ, so each lookup finds its own member.
    assert("count"@.len() != "groups"@.len());
    photo_group_list_round_trip(t.groups);
}

impl Photos {
    /// Reads a [`Photos`] from a document; `None` when the document does not
    /// describe one.
    pub fn from_json(v: &serde_json::Value) -> (r: Option<Photos>)
        ensures
            match r {
                Some(t) => photos_from_json(tree_of(*v)) == Some(t@),
                None => photos_from_json(tree_of(*v)) is None,
            },
    {
        if !v.is_object() {
            return None;
        }
        let count = match read_u64(v, "count") {
            Some(x) => x,
            None => return None,
        };
        let groups = match member(v, "groups") {
            Some(x) => match x.as_array() {
                Some(xs) => match photo_group_list_from_values(xs, Ghost(tree_of(*x)->Array_0)) {
                    Some(l) => l,
                    None => return None,
                },
                None => return None,
            },
            None => return None,
        };
        let r = Photos { count, groups };
        assert(r@ =~= photos_from_json(tree_of(*v))->Some_0);
        Some(r)
    }

    /// The document of this value, as [`photos_to_json`] describes it.
    pub fn to_json(&self) -> (r: serde_json::Value)
        ensures
            tree_of(r) == photos_to_json(self@),
    {
        let mut m = serde_json::Map::new();
        let count = number_value(self.count);
        insert_member(&mut m, String::from_str("count"), count);
        let groups = {
            let a = array_value(photo_group_list_to_values(&self.groups));
            assert(tree_of(a)->Array_0 =~= photo_group_list_to_json(photo_group_seq_view(self.groups@)));
            a
        };
        insert_member(&mut m, String::from_str("groups"), groups);
        object_value(m)
    }
}

/// The `Group` of attributes a document describes, if it describes one: an object with
/// each required member present and each member of the expected type.
pub open spec fn attribute_group_from_json(j: JsonTree) -> Option<GroupView<AttributeItemView>> {
    if j is Object {
        match (
            text_member(j, "name"@),
            text_member(j, "type"@),
            opt_u64_member(j, "count"@),
            match field(j, "items"@) {
                Some(JsonTree::Array(xs)) => attribute_item_list_from_json(xs),
                _ => None,
            },
        ) {
            (Some(name), Some(group_type), Some(count), Some(items)) => Some(GroupView { name, group_type, count, items }),
            _ => None,
        }
    } else {
        None
    }
}

/// The document of a `Group` of attributes: an object with a member for each field,
/// null where an optional field is absent.
pub open spec fn attribute_group_to_json(t: GroupView<AttributeItemView>) -> JsonTree {
    JsonTree::Object(
        no_members()
            .insert("name"@, JsonTree::Str(t.name))
            .insert("type"@, JsonTree::Str(t.group_type))
            .insert("count"@, match t.count {
                Some(n) => JsonTree::Int(n as int),
                None => JsonTree::Null,
            })
            .insert("items"@, JsonTree::Array(attribute_item_list_to_json(t.items)))
    )
}

/// A `Group` of attributes reads back from its own document unchanged, optional fields
/// included.
pub proof fn attribute_group_round_trip(t: GroupView<AttributeItemView>)
    ensures
        attribute_group_from_json(attribute_group_to_json(t)) == Some(t),
{
    reveal_strlit("name");
    reveal_strlit("type");
    reveal_strlit("count");
    reveal_strlit("items");
    // The member names differ, so each lookup finds its own member.
    assert("name"@[0] != "type"@[0]);
    assert("name"@.len() != "count"@.len());
    assert("name"@.len() != "items"@.len());
    assert("type"@.len() != "count"@.len());
    assert("type"@.len() != "items"@.len());
    assert("count"@[0] != "items"@[0]);
    attribute_item_list_round_trip(t.items);
}

impl Group<AttributeItem> {
    /// Reads a `Group` of attributes from a document; `None` when the document does not
    /// describe one.
    pub fn from_json(v: &serde_json::Value) -> (r: Option<Group<AttributeItem>>)
        ensures
            match r {
                Some(t) => attribute_group_from_json(tree_of(*v)) == Some(t@),
                None => attribute_group_from_json(tree_of(*v)) is None,
            },
    {
        if !v.is_object() {
            return None;
        }
        let name = match read_text(v, "name") {
            Some(x) => x,
            None => return None,
        };
        let group_type = match read_text(v, "type") {
            Some(x) => x,
            None => return None,
        };
        let count = match read_opt_u64(v, "count") {
            Some(x) => x,
            None => return None,
        };
        let items = match member(v, "items") {
            Some(x) => match x.as_array() {
                Some(xs) => match attribute_item_list_from_values(xs, Ghost(tree_of(*x)->Array_0)) {
                    Some(l) => l,
                    None => return None,
                },
                None => return None,
            },
            None => return None,
        };
        let r = Group { name, group_type, count, items };
        assert(r@ =~= attribute_group_from_json(tree_of(*v))->Some_0);
        Some(r)
    }

    /// The document of this value, as [`attribute_group_to_json`] describes it.
    pub fn to_json(&self) -> (r: serde_json::Value)
        ensures
            tree_of(r) == attribute_group_to_json(self@),
    {
        let mut m = serde_json::Map::new();
        let name = string_value(self.name.clone());
        insert_member(&mut m, String::from_str("name"), name);
        let group_type = string_value(self.group_type.clone());
        insert_member(&mut m, String::from_str("type"), group_type);
        let count = match self.count {
            Some(n) => number_value(n),
            None => null_value(),
        };
        insert_member(&mut m, String::from_str("count"), count);
        let items = {
            let a = array_value(attribute_item_list_to_values(&self.items));
            assert(tree_of(a)->Array_0 =~= attribute_item_list_to_json(attribute_item_seq_view(self.items@)));
            a
        };
        insert_member(&mut m, String::from_str("items"), items);
        object_value(m)
    }
}

/// The abstract values of a list of `Group` of attributes.
pub open spec fn attribute_group_seq_view(s: Seq<Group<AttributeItem>>) -> Seq<GroupView<AttributeItemView>> {
    views(s)
}

/// The `Group` of attributes values a list of documents describes, if each describes one.
pub open spec fn attribute_group_list_from_json(xs: Seq<JsonTree>) -> Option<Seq<GroupView<AttributeItemView>>> {
    if forall|i: int| 0 <= i < xs.len() ==> (#[trigger] attribute_group_from_json(xs[i])) is Some {
        Some(Seq::new(xs.len(), |i: int| attribute_group_from_json(xs[i])->Some_0))
    } else {
        None
    }
}

/// The documents of a list of `Group` of attributes values.
pub open spec fn attribute_group_list_to_json(s: Seq<GroupView<AttributeItemView>>) -> Seq<JsonTree> {
    Seq::new(s.len(), |i: int| attribute_group_to_json(s[i]))
}

/// A list of `Group` of attributes values reads back from its documents unchanged.
pub proof fn attribute_group_list_round_trip(s: Seq<GroupView<AttributeItemView>>)
    ensures
        attribute_group_list_from_json(attribute_group_list_to_json(s)) == Some(s),
{
    let xs = attribute_group_list_to_json(s);
    assert forall|i: int| 0 <= i < xs.len() implies (#[trigger] attribute_group_from_json(xs[i])) == Some(s[i]) by {
        attribute_group_round_trip(s[i]);
    }
    assert(Seq::new(xs.len(), |i: int| attribute_group_from_json(xs[i])->Some_0) =~= s);
}

fn attribute_group_list_from_values(xs: &Vec<serde_json::Value>, Ghost(trees): Ghost<Seq<JsonTree>>) -> (r: Option<Vec<Group<AttributeItem>>>)
    requires
        xs@.len() == trees.len(),
        forall|k: int| 0 <= k < xs@.len() ==> #[trigger] tree_of(xs@[k]) == trees[k],
    ensures
        match r {
            Some(l) => attribute_group_list_from_json(trees) == Some(attribute_group_seq_view(l@)),
            None => attribute_group_list_from_json(trees) is None,
        },
{
    let mut out: Vec<Group<AttributeItem>> = Vec::new();
    let mut i: usize = 0;
    while i < xs.len()
        invariant
            i <= xs.len(),
            xs@.len() == trees.len(),
            forall|k: int| 0 <= k < xs@.len() ==> #[trigger] tree_of(xs@[k]) == trees[k],
            out@.len() == i,
            forall|k: int| 0 <= k < i ==> attribute_group_from_json(trees[k]) == Some((#[trigger] out@[k])@),
        decreases xs.len() - i,
    {
        match Group::<AttributeItem>::from_json(&xs[i]) {
            Some(t) => out.push(t),
            None => {
                assert(attribute_group_from_json(trees[i as int]) is None);
                return None;
            },
        }
        i = i + 1;
    }
    assert forall|k: int| 0 <= k < trees.len() implies (#[trigger] attribute_group_from_json(trees[k])) is Some by {
        assert(attribute_group_from_json(trees[k]) == Some(out@[k]@));
    }
    assert(attribute_group_seq_view(out@) =~= Seq::new(trees.len(), |k: int| attribute_group_from_json(trees[k])->Some_0));
    Some(out)
}

fn attribute_group_list_to_values(items: &Vec<Group<AttributeItem>>) -> (r: Vec<serde_json::Value>)
    ensures
        r@.len() == items@.len(),
        forall|k: int| 0 <= k < items@.len() ==> tree_of(#[trigger] r@[k]) == attribute_group_to_json(items@[k]@),
{
    let mut out: Vec<serde_json::Value> = Vec::new();
    let mut i: usize = 0;
    while i < items.len()
        invariant
            i <= items.len(),
            out@.len() == i,
            forall|k: int| 0 <= k < i ==> tree_of(#[trigger] out@[k]) == attribute_group_to_json(items@[k]@),
        decreases items.len() - i,
    {
        out.push(items[i].to_json());
        i = i + 1;
    }
    out
}

/// The attributes of a venue, in groups.
#[derive(Clone, Debug, PartialEq)]
pub struct AttributeGroups {
    pub groups: Vec<Group<AttributeItem>>,
}

/// The abstract value of [`AttributeGroups`].
pub struct AttributeGroupsView {
    pub groups: Seq<GroupView<AttributeItemView>>,
}

impl View for AttributeGroups {
    type V = AttributeGroupsView;

    open spec fn view(&self) -> AttributeGroupsView {
        AttributeGroupsView {
            groups: attribute_group_seq_view(self.groups@),
        }
    }
}

/// The [`AttributeGroups`] a document describes, if it describes one: an object with
/// each required member present and each member of the expected type.
pub open spec fn attribute_groups_from_json(j: JsonTree) -> Option<AttributeGroupsView> {
    if j is Object {
        match match field(j, "groups"@) {
                Some(JsonTree::Array(xs)) => attribute_group_list_from_json(xs),
                _ => None,
            } {
            Some(groups) => Some(AttributeGroupsView { groups }),
            None => None,
        }
    } else {
        None
    }
}

/// The document of a [`AttributeGroups`]: an object with a member for each field,
/// null where an optional field is absent.
pub open spec fn attribute_groups_to_json(t: AttributeGroupsView) -> JsonTree {
    JsonTree::Object(
        no_members()
            .insert("groups"@, JsonTree::Array(attribute_group_list_to_json(t.groups)))
    )
}

/// A [`AttributeGroups`] reads back from its own document unchanged, optional fields
/// included.
pub proof fn attribute_groups_round_trip(t: AttributeGroupsView)
    ensures
        attribute_groups_from_json(attribute_groups_to_json(t)) == Some(t),
{
    reveal_strlit("groups");
    attribute_group_list_round_trip(t.groups);
}

impl AttributeGroups {
    /// Reads a [`AttributeGroups`] from a document; `None` when the document does not
    /// describe one.
    pub fn from_json(v: &serde_json::Value) -> (r: Option<AttributeGroups>)
        ensures
            match r {
                Some(t) => attribute_groups_from_json(tree_of(*v)) == Some(t@),
                None => attribute_groups_from_json(tree_of(*v)) is None,
            },
    {
        if !v.is_object() {
            return None;
        }
        let groups = match member(v, "groups") {
            Some(x) => match x.as_array() {
                Some(xs) => match attribute_group_list_from_values(xs, Ghost(tree_of(*x)->Array_0)) {
                    Some(l) => l,
                    None => return None,
                },
                None => return None,
            },
            None => return None,
        };
        let r = AttributeGroups { groups };
        assert(r@ =~= attribute_groups_from_json(tree_of(*v))->Some_0);
        Some(r)
    }

    /// The document of this value, as [`attribute_groups_to_json`] describes it.
    pub fn to_json(&self) -> (r: serde_json::Value)
        ensures
            tree_of(r) == attribute_groups_to_json(self@),
    {
        let mut m = serde_json::Map::new();
        let groups = {
            let a = array_value(attribute_group_list_to_values(&self.groups));
            assert(tree_of(a)->Array_0 =~= attribute_group_list_to_json(attribute_group_seq_view(self.groups@)));
            a
        };
        insert_member(&mut m, String::from_str("groups"), groups);
        object_value(m)
    }
}

/// An opening window, from `start` to `end`.
#[derive(Clone, Debug, PartialEq)]
pub struct TimeWindow {
    pub start: String,
    pub end: String,
}

/// The abstract value of [`TimeWindow`].
pub struct TimeWindowView {
    pub start: Seq<char>,
    pub end: Seq<char>,
}

impl View for TimeWindow {
    type V = TimeWindowView;

    open spec fn view(&self) -> TimeWindowView {
        TimeWindowView {
            start: self.start@,
            end: self.end@,
        }
    }
}

/// The [`TimeWindow`] a document describes, if it describes one: an object with
/// each required member present and each member of the expected type.
pub open spec fn time_window_from_json(j: JsonTree) -> Option<TimeWindowView> {
    if j is Object {
        match (
            text_member(j, "start"@),
            text_member(j, "end"@),
        ) {
            (Some(start), Some(end)) => Some(TimeWindowView { start, end }),
            _ => None,
        }
    } else {
        None
    }
}

/// The document of a [`TimeWindow`]: an object with a member for each field,
/// null where an optional field is absent.
pub open spec fn time_window_to_json(t: TimeWindowView) -> JsonTree {
    JsonTree::Object(
        no_members()
            .insert("start"@, JsonTree::Str(t.start))
            .insert("end"@, JsonTree::Str(t.end))
    )
}

/// A [`TimeWindow`] reads back from its own document unchanged, optional fields
/// included.
pub proof fn time_window_round_trip(t: TimeWindowView)
    ensures
        time_window_from_json(time_window_to_json(t)) == Some(t),
{
    reveal_strlit("start");
    reveal_strlit("end");
    // The member names differ, so each lookup finds its own member.
    assert("start"@.len() != "end"@.len());
}

impl TimeWindow {
    /// Reads a [`TimeWindow`] from a document; `None` when the document does not
    /// describe one.
    pub fn from_json(v: &serde_json::Value) -> (r: Option<TimeWindow>)
        ensures
            match r {
                Some(t) => time_window_from_json(tree_of(*v)) == Some(t@),
                None => time_window_from_json(tree_of(*v)) is None,
            },
    {
        if !v.is_object() {
            return None;
        }
        let start = match read_text(v, "start") {
            Some(x) => x,
            None => return None,
        };
        let end = match read_text(v, "end") {
            Some(x) => x,
            None => return None,
        };
        let r = TimeWindow { start, end };
        assert(r@ =~= time_window_from_json(tree_of(*v))->Some_0);
        Some(r)
    }

    /// The document of this value, as [`time_window_to_json`] describes it.
    pub fn to_json(&self) -> (r: serde_json::Value)
        ensures
            tree_of(r) == time_window_to_json(self@),
    {
        let mut m = serde_json::Map::new();
        let start = string_value(self.start.clone());
        insert_member(&mut m, String::from_str("start"), start);
        let end = string_value(self.end.clone());
        insert_member(&mut m, String::from_str("end"), end);
        object_value(m)
    }
}

/// The abstract values of a list of [`TimeWindow`].
pub open spec fn time_window_seq_view(s: Seq<TimeWindow>) -> Seq<TimeWindowView> {
    views(s)
}

/// The [`TimeWindow`] values a list of documents describes, if each describes one.
pub open spec fn time_window_list_from_json(xs: Seq<JsonTree>) -> Option<Seq<TimeWindowView>> {
    if forall|i: int| 0 <= i < xs.len() ==> (#[trigger] time_window_from_json(xs[i])) is Some {
        Some(Seq::new(xs.len(), |i: int| time_window_from_json(xs[i])->Some_0))
    } else {
        None
    }
}

/// The documents of a list of [`TimeWindow`] values.
pub open spec fn time_window_list_to_json(s: Seq<TimeWindowView>) -> Seq<JsonTree> {
    Seq::new(s.len(), |i: int| time_window_to_json(s[i]))
}

/// A list of [`TimeWindow`] values reads back from its documents unchanged.
pub proof fn time_window_list_round_trip(s: Seq<TimeWindowView>)
    ensures
        time_window_list_from_json(time_window_list_to_json(s)) == Some(s),
{
    let xs = time_window_list_to_json(s);
    assert forall|i: int| 0 <= i < xs.len() implies (#[trigger] time_window_from_json(xs[i])) == Some(s[i]) by {
        time_window_round_trip(s[i]);
    }
    assert(Seq::new(xs.len(), |i: int| time_window_from_json(xs[i])->Some_0) =~= s);
}

fn time_window_list_from_values(xs: &Vec<serde_json::Value>, Ghost(trees): Ghost<Seq<JsonTree>>) -> (r: Option<Vec<TimeWindow>>)
    requires
        xs@.len() == trees.len(),
        forall|k: int| 0 <= k < xs@.len() ==> #[trigger] tree_of(xs@[k]) == trees[k],
    ensures
        match r {
            Some(l) => time_window_list_from_json(trees) == Some(time_window_seq_view(l@)),
            None => time_window_list_from_json(trees) is None,
        },
{
    let mut out: Vec<TimeWindow> = Vec::new();
    let mut i: usize = 0;
    while i < xs.len()
        invariant
            i <= xs.len(),
            xs@.len() == trees.len(),
            forall|k: int| 0 <= k < xs@.len() ==> #[trigger] tree_of(xs@[k]) == trees[k],
            out@.len() == i,
            forall|k: int| 0 <= k < i ==> time_window_from_json(trees[k]) == Some((#[trigger] out@[k])@),
        decreases xs.len() - i,
    {
        match TimeWindow::from_json(&xs[i]) {
            Some(t) => out.push(t),
            None => {
                assert(time_window_from_json(trees[i as int]) is None);
                return None;
            },
        }
        i = i + 1;
    }
    assert forall|k: int| 0 <= k < trees.len() implies (#[trigger] time_window_from_json(trees[k])) is Some by {
        assert(time_window_from_json(trees[k]) == Some(out@[k]@));
    }
    assert(time_window_seq_view(out@) =~= Seq::new(trees.len(), |k: int| time_window_from_json(trees[k])->Some_0));
    Some(out)
}

fn time_window_list_to_values(items: &Vec<TimeWindow>) -> (r: Vec<serde_json::Value>)
    ensures
        r@.len() == items@.len(),
        forall|k: int| 0 <= k < items@.len() ==> tree_of(#[trigger] r@[k]) == time_window_to_json(items@[k]@),
{
    let mut out: Vec<serde_json::Value> = Vec::new();
    let mut i: usize = 0;
    while i < items.len()
        invariant
            i <= items.len(),
            out@.len() == i,
            forall|k: int| 0 <= k < i ==> tree_of(#[trigger] out@[k]) == time_window_to_json(items@[k]@),
        decreases items.len() - i,
    {
        out.push(items[i].to_json());
        i = i + 1;
    }
    out
}

/// The windows of a set of days.
#[derive(Clone, Debug, PartialEq)]
pub struct Timeframe {
    pub days: Vec<u16>,
    pub includes_today: Option<bool>,
    pub open: Vec<TimeWindow>,
}

/// The abstract value of [`Timeframe`].
pub struct TimeframeView {
    pub days: Seq<u16>,
    pub includes_today: Option<bool>,
    pub open: Seq<TimeWindowView>,
}

impl View for Timeframe {
    type V = TimeframeView;

    open spec fn view(&self) -> TimeframeView {
        TimeframeView {
            days: self.days@,
            includes_today: self.includes_today,
            open: time_window_seq_view(self.open@),
        }
    }
}

/// The [`Timeframe`] a document describes, if it describes one: an object with
/// each required member present and each member of the expected type.
pub open spec fn timeframe_from_json(j: JsonTree) -> Option<TimeframeView> {
    if j is Object {
        match (
            u16_list_member(j, "days"@),
            opt_bool_member(j, "includesToday"@),
            match field(j, "open"@) {
                Some(JsonTree::Array(xs)) => time_window_list_from_json(xs),
                _ => None,
            },
        ) {
            (Some(days), Some(includes_today), Some(open)) => Some(TimeframeView { days, includes_today, open }),
            _ => None,
        }
    } else {
        None
    }
}

/// The document of a [`Timeframe`]: an object with a member for each field,
/// null where an optional field is absent.
pub open spec fn timeframe_to_json(t: TimeframeView) -> JsonTree {
    JsonTree::Object(
        no_members()
            .insert("days"@, JsonTree::Array(u16_list_json(t.days)))
            .insert("includesToday"@, match t.includes_today {
                Some(b) => JsonTree::Bool(b),
                None => JsonTree::Null,
            })
            .insert("open"@, JsonTree::Array(time_window_list_to_json(t.open)))
    )
}

/// A [`Timeframe`] reads back from its own document unchanged, optional fields
/// included.
pub proof fn timeframe_round_trip(t: TimeframeView)
    ensures
        timeframe_from_json(timeframe_to_json(t)) == Some(t),
{
    reveal_strlit("days");
    reveal_strlit("includesToday");
    reveal_strlit("open");
    // The member names differ, so each lookup finds its own member.
    assert("days"@.len() != "includesToday"@.len());
    assert("days"@[0] != "open"@[0]);
    assert("includesToday"@.len() != "open"@.len());
    let j = timeframe_to_json(t);
    u16_list_round_trip(j, "days"@, t.days);
    time_window_list_round_trip(t.open);
}

impl Timeframe {
    /// Reads a [`Timeframe`] from a document; `None` when the document does not
    /// describe one.
    pub fn from_json(v: &serde_json::Value) -> (r: Option<Timeframe>)
        ensures
            match r {
                Some(t) => timeframe_from_json(tree_of(*v)) == Some(t@),
                None => timeframe_from_json(tree_of(*v)) is None,
            },
    {
        if !v.is_object() {
            return None;
        }
        let days = match read_u16_list(v, "days") {
            Some(x) => x,
            None => return None,
        };
        let includes_today = match read_opt_bool(v, "includesToday") {
            Some(x) => x,
            None => return None,
        };
        let open = match member(v, "open") {
            Some(x) => match x.as_array() {
                Some(xs) => match time_window_list_from_values(xs, Ghost(tree_of(*x)->Array_0)) {
                    Some(l) => l,
                    None => return None,
                },
                None => return None,
            },
            None => return None,
        };
        let r = Timeframe { days, includes_today, open };
        assert(r@ =~= timeframe_from_json(tree_of(*v))->Some_0);
        Some(r)
    }

    /// The document of this value, as [`timeframe_to_json`] describes it.
    pub fn to_json(&self) -> (r: serde_json::Value)
        ensures
            tree_of(r) == timeframe_to_json(self@),
    {
        let mut m = serde_json::Map::new();
        let days = u16_list_value(&self.days);
        insert_member(&mut m, String::from_str("days"), days);
        let includes_today = match self.includes_today {
            Some(b) => bool_value(b),
            None => null_value(),
        };
        insert_member(&mut m, String::from_str("includesToday"), includes_today);
        let open = {
            let a = array_value(time_window_list_to_values(&self.open));
            assert(tree_of(a)->Array_0 =~= time_window_list_to_json(time_window_seq_view(self.open@)));
            a
        };
        insert_member(&mut m, String::from_str("open"), open);
        object_value(m)
    }
}

/// The abstract values of a list of [`Timeframe`].
pub open spec fn timeframe_seq_view(s: Seq<Timeframe>) -> Seq<TimeframeView> {
    views(s)
}

/// The [`Timeframe`] values a list of documents describes, if each describes one.
pub open spec fn timeframe_list_from_json(xs: Seq<JsonTree>) -> Option<Seq<TimeframeView>> {
    if forall|i: int| 0 <= i < xs.len() ==> (#[trigger] timeframe_from_json(xs[i])) is Some {
        Some(Seq::new(xs.len(), |i: int| timeframe_from_json(xs[i])->Some_0))
    } else {
        None
    }
}

/// The documents of a list of [`Timeframe`] values.
pub open spec fn timeframe_list_to_json(s: Seq<TimeframeView>) -> Seq<JsonTree> {
    Seq::new(s.len(), |i: int| timeframe_to_json(s[i]))
}

/// A list of [`Timeframe`] values reads back from its documents unchanged.
pub proof fn timeframe_list_round_trip(s: Seq<TimeframeView>)
    ensures
        timeframe_list_from_json(timeframe_list_to_json(s)) == Some(s),
{
    let xs = timeframe_list_to_json(s);
    assert forall|i: int| 0 <= i < xs.len() implies (#[trigger] timeframe_from_json(xs[i])) == Some(s[i]) by {
        timeframe_round_trip(s[i]);
    }
    assert(Seq::new(xs.len(), |i: int| timeframe_from_json(xs[i])->Some_0) =~= s);
}

fn timeframe_list_from_values(xs: &Vec<serde_json::Value>, Ghost(trees): Ghost<Seq<JsonTree>>) -> (r: Option<Vec<Timeframe>>)
    requires
        xs@.len() == trees.len(),
        forall|k: int| 0 <= k < xs@.len() ==> #[trigger] tree_of(xs@[k]) == trees[k],
    ensures
        match r {
            Some(l) => timeframe_list_from_json(trees) == Some(timeframe_seq_view(l@)),
            None => timeframe_list_from_json(trees) is None,
        },
{
    let mut out: Vec<Timeframe> = Vec::new();
    let mut i: usize = 0;
    while i < xs.len()
        invariant
            i <= xs.len(),
            xs@.len() == trees.len(),
            forall|k: int| 0 <= k < xs@.len() ==> #[trigger] tree_of(xs@[k]) == trees[k],
            out@.len() == i,
            forall|k: int| 0 <= k < i ==> timeframe_from_json(trees[k]) == Some((#[trigger] out@[k])@),
        decreases xs.len() - i,
    {
        match Timeframe::from_json(&xs[i]) {
            Some(t) => out.push(t),
            None => {
                assert(timeframe_from_json(trees[i as int]) is None);
                return None;
            },
        }
        i = i + 1;
    }
    assert forall|k: int| 0 <= k < trees.len() implies (#[trigger] timeframe_from_json(trees[k])) is Some by {
        assert(timeframe_from_json(trees[k]) == Some(out@[k]@));
    }
    assert(timeframe_seq_view(out@) =~= Seq::new(trees.len(), |k: int| timeframe_from_json(trees[k])->Some_0));
    Some(out)
}

fn timeframe_list_to_values(items: &Vec<Timeframe>) -> (r: Vec<serde_json::Value>)
    ensures
        r@.len() == items@.len(),
        forall|k: int| 0 <= k < items@.len() ==> tree_of(#[trigger] r@[k]) == timeframe_to_json(items@[k]@),
{
    let mut out: Vec<serde_json::Value> = Vec::new();
    let mut i: usize = 0;
    while i < items.len()
        invariant
            i <= items.len(),
            out@.len() == i,
            forall|k: int| 0 <= k < i ==> tree_of(#[trigger] out@[k]) == timeframe_to_json(items@[k]@),
        decreases items.len() - i,
    {
        out.push(items[i].to_json());
        i = i + 1;
    }
    out
}

/// Timeframes of a venue's week.
#[derive(Clone, Debug, PartialEq)]
pub struct VenueHours {
    pub timeframes: Vec<Timeframe>,
}

/// The abstract value of [`VenueHours`].
pub struct VenueHoursView {
    pub timeframes: Seq<TimeframeView>,
}

impl View for VenueHours {
    type V = VenueHoursView;

    open spec fn view(&self) -> VenueHoursView {
        VenueHoursView {
            timeframes: timeframe_seq_view(self.timeframes@),
        }
    }
}

/// The [`VenueHours`] a document describes, if it describes one: an object with
/// each required member present and each member of the expected type.
pub open spec fn venue_hours_from_json(j: JsonTree) -> Option<VenueHoursView> {
    if j is Object {
        match match field(j, "timeframes"@) {
                Some(JsonTree::Array(xs)) => timeframe_list_from_json(xs),
                _ => None,
            } {
            Some(timeframes) => Some(VenueHoursView { timeframes }),
            None => None,
        }
    } else {
        None
    }
}

/// The document of a [`VenueHours`]: an object with a member for each field,
/// null where an optional field is absent.
pub open spec fn venue_hours_to_json(t: VenueHoursView) -> JsonTree {
    JsonTree::Object(
        no_members()
            .insert("timeframes"@, JsonTree::Array(timeframe_list_to_json(t.timeframes)))
    )
}

/// A [`VenueHours`] reads back from its own document unchanged, optional fields
/// included.
pub proof fn venue_hours_round_trip(t: VenueHoursView)
    ensures
        venue_hours_from_json(venue_hours_to_json(t)) == Some(t),
{
    reveal_strlit("timeframes");
    timeframe_list_round_trip(t.timeframes);
}

impl VenueHours {
    /// Reads a [`VenueHours`] from a document; `None` when the document does not
    /// describe one.
    pub fn from_json(v: &serde_json::Value) -> (r: Option<VenueHours>)
        ensures
            match r {
                Some(t) => venue_hours_from_json(tree_of(*v)) == Some(t@),
                None => venue_hours_from_json(tree_of(*v)) is None,
            },
    {
        if !v.is_object() {
            return None;
        }
        let timeframes = match member(v, "timeframes") {
            Some(x) => match x.as_array() {
                Some(xs) => match timeframe_list_from_values(xs, Ghost(tree_of(*x)->Array_0)) {
                    Some(l) => l,
                    None => return None,
                },
                None => return None,
            },
            None => return None,
        };
        let r = VenueHours { timeframes };
        assert(r@ =~= venue_hours_from_json(tree_of(*v))->Some_0);
        Some(r)
    }

    /// The document of this value, as [`venue_hours_to_json`] describes it.
    pub fn to_json(&self) -> (r: serde_json::Value)
        ensures
            tree_of(r) == venue_hours_to_json(self@),
    {
        let mut m = serde_json::Map::new();
        let timeframes = {
            let a = array_value(timeframe_list_to_values(&self.timeframes));
            assert(tree_of(a)->Array_0 =~= timeframe_list_to_json(timeframe_seq_view(self.timeframes@)));
            a
        };
        insert_member(&mut m, String::from_str("timeframes"), timeframes);
        object_value(m)
    }
}

/// The payload of a venue hours request.
#[derive(Clone, Debug, PartialEq)]
pub struct VenueHoursResponse {
    pub hours: VenueHours,
    pub popular: VenueHours,
}

/// The abstract value of [`VenueHoursResponse`].
pub struct VenueHoursResponseView {
    pub hours: VenueHoursView,
    pub popular: VenueHoursView,
}

impl View for VenueHoursResponse {
    type V = VenueHoursResponseView;

    open spec fn view(&self) -> VenueHoursResponseView {
        VenueHoursResponseView {
            hours: self.hours@,
            popular: self.popular@,
        }
    }
}

/// The [`VenueHoursResponse`] a document describes, if it describes one: an object with
/// each required member present and each member of the expected type.
pub open spec fn venue_hours_response_from_json(j: JsonTree) -> Option<VenueHoursResponseView> {
    if j is Object {
        match (
            match field(j, "hours"@) {
                Some(x) => venue_hours_from_json(x),
                None => None,
            },
            match field(j, "popular"@) {
                Some(x) => venue_hours_from_json(x),
                None => None,
            },
        ) {
            (Some(hours), Some(popular)) => Some(VenueHoursResponseView { hours, popular }),
            _ => None,
        }
    } else {
        None
    }
}

/// The document of a [`VenueHoursResponse`]: an object with a member for each field,
/// null where an optional field is absent.
pub open spec fn venue_hours_response_to_json(t: VenueHoursResponseView) -> JsonTree {
    JsonTree::Object(
        no_members()
            .insert("hours"@, venue_hours_to_json(t.hours))
            .insert("popular"@, venue_hours_to_json(t.popular))
    )
}

/// A [`VenueHoursResponse`] reads back from its own document unchanged, optional fields
/// included.
pub proof fn venue_hours_response_round_trip(t: VenueHoursResponseView)
    ensures
        venue_hours_response_from_json(venue_hours_response_to_json(t)) == Some(t),
{
    reveal_strlit("hours");
    reveal_strlit("popular");
    // The member names differ, so each lookup finds its own member.
    assert("hours"@.len() != "popular"@.len());
    venue_hours_round_trip(t.hours);
    venue_hours_round_trip(t.popular);
}

impl VenueHoursResponse {
    /// Reads a [`VenueHoursResponse`] from a document; `None` when the document does not
    /// describe one.
    pub fn from_json(v: &serde_json::Value) -> (r: Option<VenueHoursResponse>)
        ensures
            match r {
                Some(t) => venue_hours_response_from_json(tree_of(*v)) == Some(t@),
                None => venue_hours_response_from_json(tree_of(*v)) is None,
            },
    {
        if !v.is_object() {
            return None;
        }
        let hours = match member(v, "hours") {
            Some(x) => match VenueHours::from_json(x) {
                Some(t) => t,
                None => return None,
            },
            None => return None,
        };
        let popular = match member(v, "popular") {
            Some(x) => match VenueHours::from_json(x) {
                Some(t) => t,
                None => return None,
            },
            None => return None,
        };
        let r = VenueHoursResponse { hours, popular };
        assert(r@ =~= venue_hours_response_from_json(tree_of(*v))->Some_0);
        Some(r)
    }

    /// The document of this value, as [`venue_hours_response_to_json`] describes it.
    pub fn to_json(&self) -> (r: serde_json::Value)
        ensures
            tree_of(r) == venue_hours_response_to_json(self@),
    {
        let mut m = serde_json::Map::new();
        let hours = self.hours.to_json();
        insert_member(&mut m, String::from_str("hours"), hours);
        let popular = self.popular.to_json();
        insert_member(&mut m, String::from_str("popular"), popular);
        object_value(m)
    }
}

/// Whether a venue is open now.
#[derive(Clone, Debug, PartialEq)]
pub struct Hours {
    pub status: Option<String>,
    pub is_open: bool,
    pub is_local_holiday: bool,
}

/// The abstract value of [`Hours`].
pub struct HoursView {
    pub status: Option<Seq<char>>,
    pub is_open: bool,
    pub is_local_holiday: bool,
}

impl View for Hours {
    type V = HoursView;

    open spec fn view(&self) -> HoursView {
        HoursView {
            status: opt_text(self.status),
            is_open: self.is_open,
            is_local_holiday: self.is_local_holiday,
        }
    }
}

/// The [`Hours`] a document describes, if it describes one: an object with
/// each required member present and each member of the expected type.
pub open spec fn hours_from_json(j: JsonTree) -> Option<HoursView> {
    if j is Object {
        match (
            opt_text_member(j, "status"@),
            bool_member(j, "isOpen"@),
            bool_member(j, "isLocalHoliday"@),
        ) {
            (Some(status), Some(is_open), Some(is_local_holiday)) => Some(HoursView { status, is_open, is_local_holiday }),
            _ => None,
        }
    } else {
        None
    }
}

/// The document of a [`Hours`]: an object with a member for each field,
/// null where an optional field is absent.
pub open spec fn hours_to_json(t: HoursView) -> JsonTree {
    JsonTree::Object(
        no_members()
            .insert("status"@, match t.status {
                Some(s) => JsonTree::Str(s),
                None => JsonTree::Null,
            })
            .insert("isOpen"@, JsonTree::Bool(t.is_open))
            .insert("isLocalHoliday"@, JsonTree::Bool(t.is_local_holiday))
    )
}

/// A [`Hours`] reads back from its own document unchanged, optional fields
/// included.
pub proof fn hours_round_trip(t: HoursView)
    ensures
        hours_from_json(hours_to_json(t)) == Some(t),
{
    reveal_strlit("status");
    reveal_strlit("isOpen");
    reveal_strlit("isLocalHoliday");
    // The member names differ, so each lookup finds its own member.
    assert("status"@[0] != "isOpen"@[0]);
    assert("status"@.len() != "isLocalHoliday"@.len());
    assert("isOpen"@.len() != "isLocalHoliday"@.len());
}

impl Hours {
    /// Reads a [`Hours`] from a document; `None` when the document does not
    /// describe one.
    pub fn from_json(v: &serde_json::Value) -> (r: Option<Hours>)
        ensures
            match r {
                Some(t) => hours_from_json(tree_of(*v)) == Some(t@),
                None => hours_from_json(tree_of(*v)) is None,
            },
    {
        if !v.is_object() {
            return None;
        }
        let status = match read_opt_text(v, "status") {
            Some(x) => x,
            None => return None,
        };
        let is_open = match read_bool(v, "isOpen") {
            Some(x) => x,
            None => return None,
        };
        let is_local_holiday = match read_bool(v, "isLocalHoliday") {
            Some(x) => x,
            None => return None,
        };
        let r = Hours { status, is_open, is_local_holiday };
        assert(r@ =~= hours_from_json(tree_of(*v))->Some_0);
        Some(r)
    }

    /// The document of this value, as [`hours_to_json`] describes it.
    pub fn to_json(&self) -> (r: serde_json::Value)
        ensures
            tree_of(r) == hours_to_json(self@),
    {
        let mut m = serde_json::Map::new();
        let status = match &self.status {
            Some(s) => string_value(s.clone()),
            None => null_value(),
        };
        insert_member(&mut m, String::from_str("status"), status);
        let is_open = bool_value(self.is_open);
        insert_member(&mut m, String::from_str("isOpen"), is_open);
        let is_local_holiday = bool_value(self.is_local_holiday);
        insert_member(&mut m, String::from_str("isLocalHoliday"), is_local_holiday);
        object_value(m)
    }
}

/// A tip left at a venue.
#[derive(Clone, Debug, PartialEq)]
pub struct Tip {
    pub id: String,
    pub text: String,
    pub canonical_url: String,
    pub photo: Option<PhotoItem>,
}

/// The abstract value of [`Tip`].
pub struct TipView {
    pub id: Seq<char>,
    pub text: Seq<char>,
    pub canonical_url: Seq<char>,
    pub photo: Option<PhotoItemView>,
}

impl View for Tip {
    type V = TipView;

    open spec fn view(&self) -> TipView {
        TipView {
            id: self.id@,
            text: self.text@,
            canonical_url: self.canonical_url@,
            photo: match self.photo {
                Some(x) => Some(x@),
                None => None,
            },
        }
    }
}

/// The [`Tip`] a document describes, if it describes one: an object with
/// each required member present and each member of the expected type.
pub open spec fn tip_from_json(j: JsonTree) -> Option<TipView> {
    if j is Object {
        match (
            text_member(j, "id"@),
            text_member(j, "text"@),
            text_member(j, "canonicalUrl"@),
            opt_member(j, "photo"@, |x: JsonTree| photo_item_from_json(x)),
        ) {
            (Some(id), Some(text), Some(canonical_url), Some(photo)) => Some(TipView { id, text, canonical_url, photo }),
            _ => None,
        }
    } else {
        None
    }
}

/// The document of a [`Tip`]: an object with a member for each field,
/// null where an optional field is absent.
pub open spec fn tip_to_json(t: TipView) -> JsonTree {
    JsonTree::Object(
        no_members()
            .insert("id"@, JsonTree::Str(t.id))
            .insert("text"@, JsonTree::Str(t.text))
            .insert("canonicalUrl"@, JsonTree::Str(t.canonical_url))
            .insert("photo"@, match t.photo {
                Some(v) => photo_item_to_json(v),
                None => JsonTree::Null,
            })
    )
}

/// A [`Tip`] reads back from its own document unchanged, optional fields
/// included.
pub proof fn tip_round_trip(t: TipView)
    ensures
        tip_from_json(tip_to_json(t)) == Some(t),
{
    reveal_strlit("id");
    reveal_strlit("text");
    reveal_strlit("canonicalUrl");
    reveal_strlit("photo");
    // The member names differ, so each lookup finds its own member.
    assert("id"@.len() != "text"@.len());
    assert("id"@.len() != "canonicalUrl"@.len());
    assert("id"@.len() != "photo"@.len());
    assert("text"@.len() != "canonicalUrl"@.len());
    assert("text"@.len() != "photo"@.len());
    assert("canonicalUrl"@.len() != "photo"@.len());
    match t.photo {
        Some(v) => photo_item_round_trip(v),
        None => {},
    }
}

impl Tip {
    /// Reads a [`Tip`] from a document; `None` when the document does not
    /// describe one.
    pub fn from_json(v: &serde_json::Value) -> (r: Option<Tip>)
        ensures
            match r {
                Some(t) => tip_from_json(tree_of(*v)) == Some(t@),
                None => tip_from_json(tree_of(*v)) is None,
            },
    {
        if !v.is_object() {
            return None;
        }
        let id = match read_text(v, "id") {
            Some(x) => x,
            None => return None,
        };
        let text = match read_text(v, "text") {
            Some(x) => x,
            None => return None,
        };
        let canonical_url = match read_text(v, "canonicalUrl") {
            Some(x) => x,
            None => return None,
        };
        let photo = match member(v, "photo") {
            Some(x) => if x.is_null() {
                None
            } else {
                match PhotoItem::from_json(x) {
                    Some(t) => Some(t),
                    None => return None,
                }
            },
            None => None,
        };
        let r = Tip { id, text, canonical_url, photo };
        assert(r@ =~= tip_from_json(tree_of(*v))->Some_0);
        Some(r)
    }

    /// The document of this value, as [`tip_to_json`] describes it.
    pub fn to_json(&self) -> (r: serde_json::Value)
        ensures
            tree_of(r) == tip_to_json(self@),
    {
        let mut m = serde_json::Map::new();
        let id = string_value(self.id.clone());
        insert_member(&mut m, String::from_str("id"), id);
        let text = string_value(self.text.clone());
        insert_member(&mut m, String::from_str("text"), text);
        let canonical_url = string_value(self.canonical_url.clone());
        insert_member(&mut m, String::from_str("canonicalUrl"), canonical_url);
        let photo = match &self.photo {
            Some(t) => t.to_json(),
            None => null_value(),
        };
        insert_member(&mut m, String::from_str("photo"), photo);
        object_value(m)
    }
}

/// The abstract values of a list of [`Tip`].
pub open spec fn tip_seq_view(s: Seq<Tip>) -> Seq<TipView> {
    views(s)
}

/// The [`Tip`] values a list of documents describes, if each describes one.
pub open spec fn tip_list_from_json(xs: Seq<JsonTree>) -> Option<Seq<TipView>> {
    if forall|i: int| 0 <= i < xs.len() ==> (#[trigger] tip_from_json(xs[i])) is Some {
        Some(Seq::new(xs.len(), |i: int| tip_from_json(xs[i])->Some_0))
    } else {
        None
    }
}

/// The documents of a list of [`Tip`] values.
pub open spec fn tip_list_to_json(s: Seq<TipView>) -> Seq<JsonTree> {
    Seq::new(s.len(), |i: int| tip_to_json(s[i]))
}

/// A list of [`Tip`] values reads back from its documents unchanged.
pub proof fn tip_list_round_trip(s: Seq<TipView>)
    ensures
        tip_list_from_json(tip_list_to_json(s)) == Some(s),
{
    let xs = tip_list_to_json(s);
    assert forall|i: int| 0 <= i < xs.len() implies (#[trigger] tip_from_json(xs[i])) == Some(s[i]) by {
        tip_round_trip(s[i]);
    }
    assert(Seq::new(xs.len(), |i: int| tip_from_json(xs[i])->Some_0) =~= s);
}

fn tip_list_from_values(xs: &Vec<serde_json::Value>, Ghost(trees): Ghost<Seq<JsonTree>>) -> (r: Option<Vec<Tip>>)
    requires
        xs@.len() == trees.len(),
        forall|k: int| 0 <= k < xs@.len() ==> #[trigger] tree_of(xs@[k]) == trees[k],
    ensures
        match r {
            Some(l) => tip_list_from_json(trees) == Some(tip_seq_view(l@)),
            None => tip_list_from_json(trees) is None,
        },
{
    let mut out: Vec<Tip> = Vec::new();
    let mut i: usize = 0;
    while i < xs.len()
        invariant
            i <= xs.len(),
            xs@.len() == trees.len(),
            forall|k: int| 0 <= k < xs@.len() ==> #[trigger] tree_of(xs@[k]) == trees[k],
            out@.len() == i,
            forall|k: int| 0 <= k < i ==> tip_from_json(trees[k]) == Some((#[trigger] out@[k])@),
        decreases xs.len() - i,
    {
        match Tip::from_json(&xs[i]) {
            Some(t) => out.push(t),
            None => {
                assert(tip_from_json(trees[i as int]) is None);
                return None;
            },
        }
        i = i + 1;
    }
    assert forall|k: int| 0 <= k < trees.len() implies (#[trigger] tip_from_json(trees[k])) is Some by {
        assert(tip_from_json(trees[k]) == Some(out@[k]@));
    }
    assert(tip_seq_view(out@) =~= Seq::new(trees.len(), |k: int| tip_from_json(trees[k])->Some_0));
    Some(out)
}

fn tip_list_to_values(items: &Vec<Tip>) -> (r: Vec<serde_json::Value>)
    ensures
        r@.len() == items@.len(),
        forall|k: int| 0 <= k < items@.len() ==> tree_of(#[trigger] r@[k]) == tip_to_json(items@[k]@),
{
    let mut out: Vec<serde_json::Value> = Vec::new();
    let mut i: usize = 0;
    while i < items.len()
        invariant
            i <= items.len(),
            out@.len() == i,
            forall|k: int| 0 <= k < i ==> tree_of(#[trigger] out@[k]) == tip_to_json(items@[k]@),
        decreases items.len() - i,
    {
        out.push(items[i].to_json());
        i = i + 1;
    }
    out
}

/// A page of tips and their total count.
#[derive(Clone, Debug, PartialEq)]
pub struct Tips {
    /// How many tips there are in all.
    pub count: u32,
    pub items: Vec<Tip>,
}

/// The abstract value of [`Tips`].
pub struct TipsView {
    pub count: u32,
    pub items: Seq<TipView>,
}

impl View for Tips {
    type V = TipsView;

    open spec fn view(&self) -> TipsView {
        TipsView {
            count: self.count,
            items: tip_seq_view(self.items@),
        }
    }
}

/// The [`Tips`] a document describes, if it describes one: an object with
/// each required member present and each member of the expected type.
pub open spec fn tips_from_json(j: JsonTree) -> Option<TipsView> {
    if j is Object {
        match (
            u32_member(j, "count"@),
            match field(j, "items"@) {
                Some(JsonTree::Array(xs)) => tip_list_from_json(xs),
                _ => None,
            },
        ) {
            (Some(count), Some(items)) => Some(TipsView { count, items }),
            _ => None,
        }
    } else {
        None
    }
}

/// The document of a [`Tips`]: an object with a member for each field,
/// null where an optional field is absent.
pub open spec fn tips_to_json(t: TipsView) -> JsonTree {
    JsonTree::Object(
        no_members()
            .insert("count"@, JsonTree::Int(t.count as int))
            .insert("items"@, JsonTree::Array(tip_list_to_json(t.items)))
    )
}

/// A [`Tips`] reads back from its own document unchanged, optional fields
/// included.
pub proof fn tips_round_trip(t: TipsView)
    ensures
        tips_from_json(tips_to_json(t)) == Some(t),
{
    reveal_strlit("count");
    reveal_strlit("items");
    // The member names differ, so each lookup finds its own member.
    assert("count"@[0] != "items"@[0]);
    tip_list_round_trip(t.items);
}

impl Tips {
    /// Reads a [`Tips`] from a document; `None` when the document does not
    /// describe one.
    pub fn from_json(v: &serde_json::Value) -> (r: Option<Tips>)
        ensures
            match r {
                Some(t) => tips_from_json(tree_of(*v)) == Some(t@),
                None => tips_from_json(tree_of(*v)) is None,
            },
    {
        if !v.is_object() {
            return None;
        }
        let count = match read_u32(v, "count") {
            Some(x) => x,
            None => return None,
        };
        let items = match member(v, "items") {
            Some(x) => match x.as_array() {
                Some(xs) => match tip_list_from_values(xs, Ghost(tree_of(*x)->Array_0)) {
                    Some(l) => l,
                    None => return None,
                },
                None => return None,
            },
            None => return None,
        };
        let r = Tips { count, items };
        assert(r@ =~= tips_from_json(tree_of(*v))->Some_0);
        Some(r)
    }

    /// The document of this value, as [`tips_to_json`] describes it.
    pub fn to_json(&self) -> (r: serde_json::Value)
        ensures
            tree_of(r) == tips_to_json(self@),
    {
        let mut m = serde_json::Map::new();
        let count = number_value(self.count as u64);
        insert_member(&mut m, String::from_str("count"), count);
        let items = {
            let a = array_value(tip_list_to_values(&self.items));
            assert(tree_of(a)->Array_0 =~= tip_list_to_json(tip_seq_view(self.items@)));
            a
        };
        insert_member(&mut m, String::from_str("items"), items);
        object_value(m)
    }
}

/// The payload of a venue tips request.
#[derive(Clone, Debug, PartialEq)]
pub struct TipsResponse {
    pub tips: Tips,
}

/// The abstract value of [`TipsResponse`].
pub struct TipsResponseView {
    pub tips: TipsView,
}

impl View for TipsResponse {
    type V = TipsResponseView;

    open spec fn view(&self) -> TipsResponseView {
        TipsResponseView {
            tips: self.tips@,
        }
    }
}

/// The [`TipsResponse`] a document describes, if it describes one: an object with
/// each required member present and each member of the expected type.
pub open spec fn tips_response_from_json(j: JsonTree) -> Option<TipsResponseView> {
    if j is Object {
        match match field(j, "tips"@) {
                Some(x) => tips_from_json(x),
                None => None,
            } {
            Some(tips) => Some(TipsResponseView { tips }),
            None => None,
        }
    } else {
        None
    }
}

/// The document of a [`TipsResponse`]: an object with a member for each field,
/// null where an optional field is absent.
pub open spec fn tips_response_to_json(t: TipsResponseView) -> JsonTree {
    JsonTree::Object(
        no_members()
            .insert("tips"@, tips_to_json(t.tips))
    )
}

/// A [`TipsResponse`] reads back from its own document unchanged, optional fields
/// included.
pub proof fn tips_response_round_trip(t: TipsResponseView)
    ensures
        tips_response_from_json(tips_response_to_json(t)) == Some(t),
{
    reveal_strlit("tips");
    tips_round_trip(t.tips);
}

impl TipsResponse {
    /// Reads a [`TipsResponse`] from a document; `None` when the document does not
    /// describe one.
    pub fn from_json(v: &serde_json::Value) -> (r: Option<TipsResponse>)
        ensures
            match r {
                Some(t) => tips_response_from_json(tree_of(*v)) == Some(t@),
                None => tips_response_from_json(tree_of(*v)) is None,
            },
    {
        if !v.is_object() {
            return None;
        }
        let tips = match member(v, "tips") {
            Some(x) => match Tips::from_json(x) {
                Some(t) => t,
                None => return None,
            },
            None => return None,
        };
        let r = TipsResponse { tips };
        assert(r@ =~= tips_response_from_json(tree_of(*v))->Some_0);
        Some(r)
    }

    /// The document of this value, as [`tips_response_to_json`] describes it.
    pub fn to_json(&self) -> (r: serde_json::Value)
        ensures
            tree_of(r) == tips_response_to_json(self@),
    {
        let mut m = serde_json::Map::new();
        let tips = self.tips.to_json();
        insert_member(&mut m, String::from_str("tips"), tips);
        object_value(m)
    }
}

/// A venue attribute and its value, for display.
#[derive(Clone, Debug, PartialEq)]
pub struct AttributeItem {
    pub display_name: String,
    pub display_value: String,
}

/// The abstract value of [`AttributeItem`].
pub struct AttributeItemView {
    pub display_name: Seq<char>,
    pub display_value: Seq<char>,
}

impl View for AttributeItem {
    type V = AttributeItemView;

    open spec fn view(&self) -> AttributeItemView {
        AttributeItemView {
            display_name: self.display_name@,
            display_value: self.display_value@,
        }
    }
}

/// The [`AttributeItem`] a document describes, if it describes one: an object with
/// each required member present and each member of the expected type.
pub open spec fn attribute_item_from_json(j: JsonTree) -> Option<AttributeItemView> {
    if j is Object {
        match (
            text_member(j, "displayName"@),
            text_member(j, "displayValue"@),
        ) {
            (Some(display_name), Some(display_value)) => Some(AttributeItemView { display_name, display_value }),
            _ => None,
        }
    } else {
        None
    }
}

/// The document of a [`AttributeItem`]: an object with a member for each field,
/// null where an optional field is absent.
pub open spec fn attribute_item_to_json(t: AttributeItemView) -> JsonTree {
    JsonTree::Object(
        no_members()
            .insert("displayName"@, JsonTree::Str(t.display_name))
            .insert("displayValue"@, JsonTree::Str(t.display_value))
    )
}

/// A [`AttributeItem`] reads back from its own document unchanged, optional fields
/// included.
pub proof fn attribute_item_round_trip(t: AttributeItemView)
    ensures
        attribute_item_from_json(attribute_item_to_json(t)) == Some(t),
{
    reveal_strlit("displayName");
    reveal_strlit("displayValue");
    // The member names differ, so each lookup finds its own member.
    assert("displayName"@.len() != "displayValue"@.len());
}

impl AttributeItem {
    /// Reads a [`AttributeItem`] from a document; `None` when the document does not
    /// describe one.
    pub fn from_json(v: &serde_json::Value) -> (r: Option<AttributeItem>)
        ensures
            match r {
                Some(t) => attribute_item_from_json(tree_of(*v)) == Some(t@),
                None => attribute_item_from_json(tree_of(*v)) is None,
            },
    {
        if !v.is_object() {
            return None;
        }
        let display_name = match read_text(v, "displayName") {
            Some(x) => x,
            None => return None,
        };
        let display_value = match read_text(v, "displayValue") {
            Some(x) => x,
            None => return None,
        };
        let r = AttributeItem { display_name, display_value };
        assert(r@ =~= attribute_item_from_json(tree_of(*v))->Some_0);
        Some(r)
    }

    /// The document of this value, as [`attribute_item_to_json`] describes it.
    pub fn to_json(&self) -> (r: serde_json::Value)
        ensures
            tree_of(r) == attribute_item_to_json(self@),
    {
        let mut m = serde_json::Map::new();
        let display_name = string_value(self.display_name.clone());
        insert_member(&mut m, String::from_str("displayName"), display_name);
        let display_value = string_value(self.display_value.clone());
        insert_member(&mut m, String::from_str("displayValue"), display_value);
        object_value(m)
    }
}

/// The abstract values of a list of [`AttributeItem`].
pub open spec fn attribute_item_seq_view(s: Seq<AttributeItem>) -> Seq<AttributeItemView> {
    views(s)
}

/// The [`AttributeItem`] values a list of documents describes, if each describes one.
pub open spec fn attribute_item_list_from_json(xs: Seq<JsonTree>) -> Option<Seq<AttributeItemView>> {
    if forall|i: int| 0 <= i < xs.len() ==> (#[trigger] attribute_item_from_json(xs[i])) is Some {
        Some(Seq::new(xs.len(), |i: int| attribute_item_from_json(xs[i])->Some_0))
    } else {
        None
    }
}

/// The documents of a list of [`AttributeItem`] values.
pub open spec fn attribute_item_list_to_json(s: Seq<AttributeItemView>) -> Seq<JsonTree> {
    Seq::new(s.len(), |i: int| attribute_item_to_json(s[i]))
}

/// A list of [`AttributeItem`] values reads back from its documents unchanged.
pub proof fn attribute_item_list_round_trip(s: Seq<AttributeItemView>)
    ensures
        attribute_item_list_from_json(attribute_item_list_to_json(s)) == Some(s),
{
    let xs = attribute_item_list_to_json(s);
    assert forall|i: int| 0 <= i < xs.len() implies (#[trigger] attribute_item_from_json(xs[i])) == Some(s[i]) by {
        attribute_item_round_trip(s[i]);
    }
    assert(Seq::new(xs.len(), |i: int| attribute_item_from_json(xs[i])->Some_0) =~= s);
}

fn attribute_item_list_from_values(xs: &Vec<serde_json::Value>, Ghost(trees): Ghost<Seq<JsonTree>>) -> (r: Option<Vec<AttributeItem>>)
    requires
        xs@.len() == trees.len(),
        forall|k: int| 0 <= k < xs@.len() ==> #[trigger] tree_of(xs@[k]) == trees[k],
    ensures
        match r {
            Some(l) => attribute_item_list_from_json(trees) == Some(attribute_item_seq_view(l@)),
            None => attribute_item_list_from_json(trees) is None,
        },
{
    let mut out: Vec<AttributeItem> = Vec::new();
    let mut i: usize = 0;
    while i < xs.len()
        invariant
            i <= xs.len(),
            xs@.len() == trees.len(),
            forall|k: int| 0 <= k < xs@.len() ==> #[trigger] tree_of(xs@[k]) == trees[k],
            out@.len() == i,
            forall|k: int| 0 <= k < i ==> attribute_item_from_json(trees[k]) == Some((#[trigger] out@[k])@),
        decreases xs.len() - i,
    {
        match AttributeItem::from_json(&xs[i]) {
            Some(t) => out.push(t),
            None => {
                assert(attribute_item_from_json(trees[i as int]) is None);
                return None;
            },
        }
        i = i + 1;
    }
    assert forall|k: int| 0 <= k < trees.len() implies (#[trigger] attribute_item_from_json(trees[k])) is Some by {
        assert(attribute_item_from_json(trees[k]) == Some(out@[k]@));
    }
    assert(attribute_item_seq_view(out@) =~= Seq::new(trees.len(), |k: int| attribute_item_from_json(trees[k])->Some_0));
    Some(out)
}

fn attribute_item_list_to_values(items: &Vec<AttributeItem>) -> (r: Vec<serde_json::Value>)
    ensures
        r@.len() == items@.len(),
        forall|k: int| 0 <= k < items@.len() ==> tree_of(#[trigger] r@[k]) == attribute_item_to_json(items@[k]@),
{
    let mut out: Vec<serde_json::Value> = Vec::new();
    let mut i: usize = 0;
    while i < items.len()
        invariant
            i <= items.len(),
            out@.len() == i,
            forall|k: int| 0 <= k < i ==> tree_of(#[trigger] out@[k]) == attribute_item_to_json(items@[k]@),
        decreases items.len() - i,
    {
        out.push(items[i].to_json());
        i = i + 1;
    }
    out
}

/// A warning attached to a response.
#[derive(Clone, Debug, PartialEq)]
pub struct Warning {
    pub text: String,
}

/// The abstract value of [`Warning`].
pub struct WarningView {
    pub text: Seq<char>,
}

impl View for Warning {
    type V = WarningView;

    open spec fn view(&self) -> WarningView {
        WarningView {
            text: self.text@,
        }
    }
}

/// The [`Warning`] a document describes, if it describes one: an object with
/// each required member present and each member of the expected type.
pub open spec fn warning_from_json(j: JsonTree) -> Option<WarningView> {
    if j is Object {
        match text_member(j, "text"@) {
            Some(text) => Some(WarningView { text }),
            None => None,
        }
    } else {
        None
    }
}

/// The document of a [`Warning`]: an object with a member for each field,
/// null where an optional field is absent.
pub open spec fn warning_to_json(t: WarningView) -> JsonTree {
    JsonTree::Object(
        no_members()
            .insert("text"@, JsonTree::Str(t.text))
    )
}

/// A [`Warning`] reads back from its own document unchanged, optional fields
/// included.
pub proof fn warning_round_trip(t: WarningView)
    ensures
        warning_from_json(warning_to_json(t)) == Some(t),
{
    reveal_strlit("text");
}

impl Warning {
    /// Reads a [`Warning`] from a document; `None` when the document does not
    /// describe one.
    pub fn from_json(v: &serde_json::Value) -> (r: Option<Warning>)
        ensures
            match r {
                Some(t) => warning_from_json(tree_of(*v)) == Some(t@),
                None => warning_from_json(tree_of(*v)) is None,
            },
    {
        if !v.is_object() {
            return None;
        }
        let text = match read_text(v, "text") {
            Some(x) => x,
            None => return None,
        };
        let r = Warning { text };
        assert(r@ =~= warning_from_json(tree_of(*v))->Some_0);
        Some(r)
    }

    /// The document of this value, as [`warning_to_json`] describes it.
    pub fn to_json(&self) -> (r: serde_json::Value)
        ensures
            tree_of(r) == warning_to_json(self@),
    {
        let mut m = serde_json::Map::new();
        let text = string_value(self.text.clone());
        insert_member(&mut m, String::from_str("text"), text);
        object_value(m)
    }
}


} // verus!
