//! General helpers: identifier generation, the display-layer identifier
//! scramble, and the option-tag builders for the selection controls.

use crate::crud::dup_opt_string;
use crate::sales::SalesFunnel;
use crate::sales::SalesFunnelTag;
use crate::sales::SchoolLevel;
use crate::sales::SchoolLevelTag;
use crate::sales::ServicesOffered;
use crate::sales::ServicesOfferedTag;
use crate::users::Roles;
use crate::users::RolesTag;
use vstd::pervasive::VecAdditionalExecFns;
use vstd::prelude::*;
use vstd::string::StrSliceExecFns;

verus! {

/// Relies on uuid's `Uuid::new_v4` with `Simple::encode_lower`: a fresh
/// random version-4 identifier rendered as exactly 32 lower-case hexadecimal
/// characters, no separators.
#[verifier::external_body]
pub fn get_uuid() -> (r: String)
    ensures
        r@.len() == 32,
        forall|i: int| 0 <= i < r@.len() ==> crate::is_lower_hex_char(#[trigger] r@[i]),
{
    let mut buffer = uuid::Uuid::encode_buffer();
    let new_id = uuid::Uuid::new_v4().simple().encode_lower(&mut buffer);
    String::from(new_id)
}

/// Relies on rand's `random_range`: a draw from `0..bound`, which panics on
/// an empty range, so the bound must be positive. Nothing relates the result
/// to earlier draws.
#[verifier::external_body]
fn get_rnd_position(bound: u8) -> (r: u8)
    requires
        0 < bound,
    ensures
        r < bound,
{
    rand::random_range(0..bound)
}

/// Relies on std's `String::push`: appends exactly one character at the end.
#[verifier::external_body]
pub(crate) fn push_char(s: &mut String, c: char)
    ensures
        final(s)@ == old(s)@.push(c),
{
    s.push(c)
}

/// Collects the characters of a string slice, in order.
fn string_chars(s: &str) -> (r: Vec<char>)
    ensures
        r@ == s@,
{
    let n = s.unicode_len();
    let mut out: Vec<char> = Vec::new();
    for i in 0..n
        invariant
            n as nat == s@.len(),
            out@ == s@.take(i as int),
    {
        out.push(s.get_char(i));
        proof {
            assert(out@ =~= s@.take(i as int + 1));
        }
    }
    proof {
        assert(s@.take(n as int) =~= s@);
    }
    out
}

/// Builds the string with exactly the given characters, in order.
fn chars_string(v: &Vec<char>) -> (r: String)
    ensures
        r@ == v@,
{
    let mut out = String::new();
    let n = v.len();
    for i in 0..n
        invariant
            n == v@.len(),
            out@ == v@.take(i as int),
    {
        push_char(&mut out, v[i]);
        proof {
            assert(out@ =~= v@.take(i as int + 1));
        }
    }
    proof {
        assert(v@.take(n as int) =~= v@);
    }
    out
}

/// The scramble that the display layer applies to an identifier: the
/// character at `from` is taken out and put back at position `to`.
pub open spec fn spec_relocated(s: Seq<char>, from: int, to: int) -> Seq<char> {
    s.remove(from).insert(to, s[from])
}

/// Whether `r` is `s` with the character at `from` relocated to the start or
/// to the end.
pub open spec fn relocated_to_edge(s: Seq<char>, r: Seq<char>, from: int) -> bool {
    r == spec_relocated(s, from, 0) || r == spec_relocated(s, from, s.len() - 1)
}

/// Scrambles an identifier for display: one randomly chosen character is
/// relocated to the start or to the end. The result is a rearrangement of the
/// input — same length, same characters — and is not used for lookup.
pub fn shuffle_id(uuid: String) -> (r: String)
    requires
        0 < uuid@.len() < 256,
    ensures
        r@.len() == uuid@.len(),
        r@.to_multiset() == uuid@.to_multiset(),
        exists|from: int| 0 <= from < uuid@.len() && #[trigger] relocated_to_edge(uuid@, r@, from),
{
    let chars: Vec<char> = string_chars(uuid.as_str());
    let len: usize = chars.len();
    let rnd_index: usize = get_rnd_position(len as u8) as usize;
    let rnd_pos = get_rnd_position(2);
    let target: usize = if rnd_pos == 1 {
        len - 1
    } else {
        0
    };
    let rnd_char: char = chars[rnd_index];
    let mut vec_of_chars = chars;
    vec_of_chars.remove(rnd_index);
    vec_of_chars.insert(target, rnd_char);
    let out = chars_string(&vec_of_chars);
    proof {
        broadcast use vstd::seq_lib::group_to_multiset_ensures;

        let s = uuid@;
        let f = rnd_index as int;
        assert(s.contains(s[f]));
        assert(s.remove(f).to_multiset() =~= s.to_multiset().remove(s[f]));
        vstd::seq_lib::to_multiset_insert(s.remove(f), target as int, s[f]);
        assert(out@.to_multiset() =~= s.to_multiset());
        assert(relocated_to_edge(uuid@, out@, f));
    }
    out
}

/// The offered service shown at position `i` of the services control.
pub open spec fn spec_service_at(i: int) -> ServicesOffered {
    if i == 0 {
        ServicesOffered::BRANDING
    } else if i == 1 {
        ServicesOffered::WEBSERVICES
    } else if i == 2 {
        ServicesOffered::DIGITALSTRATEGY
    } else if i == 3 {
        ServicesOffered::ATTRACTIONOFNEWCLIENTS
    } else {
        ServicesOffered::SALESMANAGEMENT
    }
}

/// The icon shown at position `i` of the services control.
pub open spec fn spec_service_icon_at(i: int) -> Seq<char> {
    if i == 0 {
        "fas fa-copyright"@
    } else if i == 1 {
        "fas fa-globe-americas"@
    } else if i == 2 {
        "fas fa-robot"@
    } else if i == 3 {
        "fas fa-magnet"@
    } else {
        "far fa-money-bill-alt"@
    }
}

/// The funnel stage shown at position `i` of the funnel control.
pub open spec fn spec_funnel_at(i: int) -> SalesFunnel {
    if i == 0 {
        SalesFunnel::LOST
    } else if i == 1 {
        SalesFunnel::PROSPECT
    } else if i == 2 {
        SalesFunnel::RESEARCH
    } else if i == 3 {
        SalesFunnel::NEED
    } else if i == 4 {
        SalesFunnel::QUOTE
    } else if i == 5 {
        SalesFunnel::NEGOTIATION
    } else {
        SalesFunnel::WIN
    }
}

/// The icon shown at position `i` of the funnel control.
pub open spec fn spec_funnel_icon_at(i: int) -> Seq<char> {
    if i == 0 {
        "fas fa-trash"@
    } else if i == 1 {
        "fas fa-binoculars"@
    } else if i == 2 {
        "fas fa-user-secret"@
    } else if i == 3 {
        "fas fa-drumstick-bite"@
    } else if i == 4 {
        "fas fa-money-check-alt"@
    } else if i == 5 {
        "fas fa-people-arrows"@
    } else {
        "fas fa-handshake"@
    }
}

/// The style class shown at position `i` of the funnel control.
pub open spec fn spec_funnel_css_at(i: int) -> Seq<char> {
    if i == 0 {
        "is-lost"@
    } else if i == 1 {
        "is-prospect"@
    } else if i == 2 {
        "is-research"@
    } else if i == 3 {
        "has-background-primary-100 has-text-primary-100-invert"@
    } else if i == 4 {
        "is-quote"@
    } else if i == 5 {
        "is-negotiation"@
    } else {
        "is-win"@
    }
}

/// The school level shown at position `i` of the school-level control.
pub open spec fn spec_school_level_at(i: int) -> SchoolLevel {
    if i == 0 {
        SchoolLevel::NURSERY
    } else if i == 1 {
        SchoolLevel::KINDER
    } else if i == 2 {
        SchoolLevel::ELEMENTARY
    } else if i == 3 {
        SchoolLevel::MIDDLESCHOOL
    } else if i == 4 {
        SchoolLevel::HIGHSCHOOL
    } else if i == 5 {
        SchoolLevel::TECHNICALSCHOOL
    } else {
        SchoolLevel::UNIVERSITY
    }
}

/// The role shown at position `i` of the roles control.
pub open spec fn spec_role_at(i: int) -> Roles {
    if i == 0 {
        Roles::EDITOR
    } else {
        Roles::ADMIN
    }
}

/// A service tag carries the value, label and icon that belong at its
/// position.
pub open spec fn service_tag_wf(t: ServicesOfferedTag, i: int) -> bool {
    &&& t.value == spec_service_at(i)
    &&& t.text@ == spec_service_at(i).spec_text()
    &&& t.icon matches Some(s) && s@ == spec_service_icon_at(i)
}

/// A funnel tag carries the value, label, icon and style that belong at its
/// position.
pub open spec fn funnel_tag_wf(t: SalesFunnelTag, i: int) -> bool {
    &&& t.value == spec_funnel_at(i)
    &&& t.text@ == spec_funnel_at(i).spec_text()
    &&& t.icon matches Some(s) && s@ == spec_funnel_icon_at(i)
    &&& t.css matches Some(s) && s@ == spec_funnel_css_at(i)
}

/// A school-level tag carries the value and label that belong at its
/// position.
pub open spec fn school_level_tag_wf(t: SchoolLevelTag, i: int) -> bool {
    &&& t.value == spec_school_level_at(i)
    &&& t.text@ == spec_school_level_at(i).spec_text()
}

/// A role tag carries the value and label that belong at its position.
pub open spec fn role_tag_wf(t: RolesTag, i: int) -> bool {
    &&& t.value == spec_role_at(i)
    &&& t.text@ == spec_role_at(i).spec_text()
}

/// Builds the role tags, none selected.
pub fn get_roles_tag() -> (r: Vec<RolesTag>)
    ensures
        r@.len() == 2,
        forall|i: int| 0 <= i < 2 ==> role_tag_wf(#[trigger] r@[i], i) && !r@[i].selected,
{
    let roles_tag: Vec<RolesTag> = vec![
        RolesTag { value: Roles::EDITOR, text: Roles::EDITOR.text(), selected: false },
        RolesTag { value: Roles::ADMIN, text: Roles::ADMIN.text(), selected: false },
    ];
    roles_tag
}

/// Builds the service tags and the funnel tags, none selected.
pub fn get_options_and_services() -> (r: (Vec<ServicesOfferedTag>, Vec<SalesFunnelTag>))
    ensures
        r.0@.len() == 5,
        forall|i: int| 0 <= i < 5 ==> service_tag_wf(#[trigger] r.0@[i], i) && !r.0@[i].selected,
        r.1@.len() == 7,
        forall|i: int| 0 <= i < 7 ==> funnel_tag_wf(#[trigger] r.1@[i], i) && !r.1@[i].selected,
{
    let services_tag: Vec<ServicesOfferedTag> = vec![
        ServicesOfferedTag {
            value: ServicesOffered::BRANDING,
            text: ServicesOffered::BRANDING.text(),
            selected: false,
            icon: Some("fas fa-copyright".to_string()),
        },
        ServicesOfferedTag {
            value: ServicesOffered::WEBSERVICES,
            text: ServicesOffered::WEBSERVICES.text(),
            selected: false,
            icon: Some("fas fa-globe-americas".to_string()),
        },
        ServicesOfferedTag {
            value: ServicesOffered::DIGITALSTRATEGY,
            text: ServicesOffered::DIGITALSTRATEGY.text(),
            selected: false,
            icon: Some("fas fa-robot".to_string()),
        },
        ServicesOfferedTag {
            value: ServicesOffered::ATTRACTIONOFNEWCLIENTS,
            text: ServicesOffered::ATTRACTIONOFNEWCLIENTS.text(),
            selected: false,
            icon: Some("fas fa-magnet".to_string()),
        },
        ServicesOfferedTag {
            value: ServicesOffered::SALESMANAGEMENT,
            text: ServicesOffered::SALESMANAGEMENT.text(),
            selected: false,
            icon: Some("far fa-money-bill-alt".to_string()),
        },
    ];
    let funnel_tag: Vec<SalesFunnelTag> = vec![
        SalesFunnelTag {
            value: SalesFunnel::LOST,
            text: SalesFunnel::LOST.text(),
            selected: false,
            icon: Some("fas fa-trash".to_string()),
            css: Some("is-lost".to_string()),
        },
        SalesFunnelTag {
            value: SalesFunnel::PROSPECT,
            text: SalesFunnel::PROSPECT.text(),
            selected: false,
            icon: Some("fas fa-binoculars".to_string()),
            css: Some("is-prospect".to_string()),
        },
        SalesFunnelTag {
            value: SalesFunnel::RESEARCH,
            text: SalesFunnel::RESEARCH.text(),
            selected: false,
            icon: Some("fas fa-user-secret".to_string()),
            css: Some("is-research".to_string()),
        },
        SalesFunnelTag {
            value: SalesFunnel::NEED,
            text: SalesFunnel::NEED.text(),
            selected: false,
            icon: Some("fas fa-drumstick-bite".to_string()),
            css: Some("has-background-primary-100 has-text-primary-100-invert".to_string()),
        },
        SalesFunnelTag {
            value: SalesFunnel::QUOTE,
            text: SalesFunnel::QUOTE.text(),
            selected: false,
            icon: Some("fas fa-money-check-alt".to_string()),
            css: Some("is-quote".to_string()),
        },
        SalesFunnelTag {
            value: SalesFunnel::NEGOTIATION,
            text: SalesFunnel::NEGOTIATION.text(),
            selected: false,
            icon: Some("fas fa-people-arrows".to_string()),
            css: Some("is-negotiation".to_string()),
        },
        SalesFunnelTag {
            value: SalesFunnel::WIN,
            text: SalesFunnel::WIN.text(),
            selected: false,
            icon: Some("fas fa-handshake".to_string()),
            css: Some("is-win".to_string()),
        },
    ];
    (services_tag, funnel_tag)
}

/// Builds the school-level tags, none selected.
pub fn get_school_level_tags() -> (r: Vec<SchoolLevelTag>)
    ensures
        r@.len() == 7,
        forall|i: int| 0 <= i < 7 ==> school_level_tag_wf(#[trigger] r@[i], i) && !r@[i].selected,
{
    vec![
        SchoolLevelTag {
            value: SchoolLevel::NURSERY,
            text: SchoolLevel::NURSERY.text(),
            selected: false,
        },
        SchoolLevelTag {
            value: SchoolLevel::KINDER,
            text: SchoolLevel::KINDER.text(),
            selected: false,
        },
        SchoolLevelTag {
            value: SchoolLevel::ELEMENTARY,
            text: SchoolLevel::ELEMENTARY.text(),
            selected: false,
        },
        SchoolLevelTag {
            value: SchoolLevel::MIDDLESCHOOL,
            text: SchoolLevel::MIDDLESCHOOL.text(),
            selected: false,
        },
        SchoolLevelTag {
            value: SchoolLevel::HIGHSCHOOL,
            text: SchoolLevel::HIGHSCHOOL.text(),
            selected: false,
        },
        SchoolLevelTag {
            value: SchoolLevel::TECHNICALSCHOOL,
            text: SchoolLevel::TECHNICALSCHOOL.text(),
            selected: false,
        },
        SchoolLevelTag {
            value: SchoolLevel::UNIVERSITY,
            text: SchoolLevel::UNIVERSITY.text(),
            selected: false,
        },
    ]
}

/// Whether the services list contains `x`.
fn services_contains(v: &Vec<ServicesOffered>, x: ServicesOffered) -> (r: bool)
    ensures
        r == v@.contains(x),
{
    let n = v.len();
    for i in 0..n
        invariant
            n == v@.len(),
            forall|j: int| 0 <= j < i ==> v@[j] != x,
    {
        if v[i] == x {
            return true;
        }
    }
    false
}

/// Whether the school-level list contains `x`.
fn levels_contains(v: &Vec<SchoolLevel>, x: SchoolLevel) -> (r: bool)
    ensures
        r == v@.contains(x),
{
    let n = v.len();
    for i in 0..n
        invariant
            n == v@.len(),
            forall|j: int| 0 <= j < i ==> v@[j] != x,
    {
        if v[i] == x {
            return true;
        }
    }
    false
}

/// The service and funnel tags carry the fixed catalogue, with a service tag
/// selected exactly when the record offers that service and a funnel tag
/// selected exactly when the record sits at that stage.
pub open spec fn spec_selected_tags(
    services_tag: Seq<ServicesOfferedTag>,
    funnel_tag: Seq<SalesFunnelTag>,
    services: Seq<ServicesOffered>,
    funnel: SalesFunnel,
) -> bool {
    &&& services_tag.len() == 5
    &&& forall|i: int|
        0 <= i < 5 ==> service_tag_wf(#[trigger] services_tag[i], i) && (services_tag[i].selected
            <==> services.contains(spec_service_at(i)))
    &&& funnel_tag.len() == 7
    &&& forall|i: int|
        0 <= i < 7 ==> funnel_tag_wf(#[trigger] funnel_tag[i], i) && (funnel_tag[i].selected
            <==> funnel == spec_funnel_at(i))
}

/// Builds the service and funnel tags with the selections of one record:
/// a service tag is selected exactly when the record offers that service, and
/// a funnel tag exactly when the record sits at that stage.
pub fn create_option_tags_info_for_services_and_funnel(
    enterprise_services_offered: Vec<ServicesOffered>,
    enterprise_sales_funnel: SalesFunnel,
) -> (r: (Vec<ServicesOfferedTag>, Vec<SalesFunnelTag>))
    ensures
        spec_selected_tags(
            r.0@,
            r.1@,
            enterprise_services_offered@,
            enterprise_sales_funnel,
        ),
{
    let (mut services_tag, mut funnel_tag) = get_options_and_services();

    let services_offered = enterprise_services_offered;
    let sales_funnel = enterprise_sales_funnel;

    let mut i: usize = 0;
    while i < services_tag.len()
        invariant
            services_tag@.len() == 5,
            forall|j: int| 0 <= j < 5 ==> service_tag_wf(#[trigger] services_tag@[j], j),
            forall|j: int| i <= j < 5 ==> !services_tag@[j].selected,
            forall|j: int|
                0 <= j < i ==> (services_tag@[j].selected <==> services_offered@.contains(
                    spec_service_at(j),
                )),
        decreases 5 - i,
    {
        if services_contains(&services_offered, services_tag[i].value) {
            let selected_tag = ServicesOfferedTag {
                value: services_tag[i].value,
                text: services_tag[i].text.clone(),
                selected: true,
                icon: dup_opt_string(&services_tag[i].icon),
            };
            services_tag.set(i, selected_tag);
        }
        i += 1;
    }

    let mut i: usize = 0;
    while i < funnel_tag.len()
        invariant
            funnel_tag@.len() == 7,
            forall|j: int| 0 <= j < 7 ==> funnel_tag_wf(#[trigger] funnel_tag@[j], j),
            forall|j: int| i <= j < 7 ==> !funnel_tag@[j].selected,
            forall|j: int|
                0 <= j < i ==> (funnel_tag@[j].selected <==> sales_funnel == spec_funnel_at(j)),
        decreases 7 - i,
    {
        if sales_funnel == funnel_tag[i].value {
            let selected_tag = SalesFunnelTag {
                value: funnel_tag[i].value,
                text: funnel_tag[i].text.clone(),
                selected: true,
                icon: dup_opt_string(&funnel_tag[i].icon),
                css: dup_opt_string(&funnel_tag[i].css),
            };
            funnel_tag.set(i, selected_tag);
        }
        i += 1;
    }

    (services_tag, funnel_tag)
}

/// Builds the role tags with one role selected: a tag is selected exactly
/// when the user holds that role.
pub fn create_role_tags_for_users(user_role: Roles) -> (r: Vec<RolesTag>)
    ensures
        r@.len() == 2,
        forall|i: int|
            0 <= i < 2 ==> role_tag_wf(#[trigger] r@[i], i) && (r@[i].selected <==> user_role
                == spec_role_at(i)),
{
    let mut roles_tag = get_roles_tag();

    let mut i: usize = 0;
    while i < roles_tag.len()
        invariant
            roles_tag@.len() == 2,
            forall|j: int| 0 <= j < 2 ==> role_tag_wf(#[trigger] roles_tag@[j], j),
            forall|j: int| i <= j < 2 ==> !roles_tag@[j].selected,
            forall|j: int| 0 <= j < i ==> (roles_tag@[j].selected <==> user_role == spec_role_at(j)),
        decreases 2 - i,
    {
        if user_role == roles_tag[i].value {
            let selected_tag = RolesTag {
                value: roles_tag[i].value,
                text: roles_tag[i].text.clone(),
                selected: true,
            };
            roles_tag.set(i, selected_tag);
        }
        i += 1;
    }

    roles_tag
}

/// Builds the school-level tags with the selections of one record: a tag is
/// selected exactly when the record covers that level.
pub fn create_school_level_tags(school_level: Vec<SchoolLevel>) -> (r: Vec<SchoolLevelTag>)
    ensures
        r@.len() == 7,
        forall|i: int|
            0 <= i < 7 ==> school_level_tag_wf(#[trigger] r@[i], i) && (r@[i].selected
                <==> school_level@.contains(spec_school_level_at(i))),
{
    let mut level_tag = get_school_level_tags();

    let mut i: usize = 0;
    while i < level_tag.len()
        invariant
            level_tag@.len() == 7,
            forall|j: int| 0 <= j < 7 ==> school_level_tag_wf(#[trigger] level_tag@[j], j),
            forall|j: int| i <= j < 7 ==> !level_tag@[j].selected,
            forall|j: int|
                0 <= j < i ==> (level_tag@[j].selected <==> school_level@.contains(
                    spec_school_level_at(j),
                )),
        decreases 7 - i,
    {
        if levels_contains(&school_level, level_tag[i].value) {
            let selected_tag = SchoolLevelTag {
                value: level_tag[i].value,
                text: level_tag[i].text.clone(),
                selected: true,
            };
            level_tag.set(i, selected_tag);
        }
        i += 1;
    }

    level_tag
}

} // verus!
