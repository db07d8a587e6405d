//! The members and custom fronts of a plural system as the journal service
//! reports them, and how the ones currently fronting are picked out.

use vstd::prelude::*;

verus! {

/// One member or custom front that is currently fronting.
#[derive(Debug, Clone)]
pub struct Fronter {
    pub id: String,
    pub name: String,
    pub avatar_url: String,
    pub vrchat_status_name: Option<String>,
}

impl Fronter {
    /// The name this fronter shows in a status: the platform-specific name if
    /// one is set, else the display name.
    pub open spec fn preferred_name(self) -> Seq<char> {
        match self.vrchat_status_name {
            Some(n) => n@,
            None => self.name@,
        }
    }

    /// An equal copy.
    pub fn duplicate(&self) -> (r: Self)
        ensures
            r == *self,
    {
        Fronter {
            id: self.id.clone(),
            name: self.name.clone(),
            avatar_url: self.avatar_url.clone(),
            vrchat_status_name: match &self.vrchat_status_name {
                Some(n) => Some(n.clone()),
                None => None,
            },
        }
    }

    pub fn preferred_vrchat_status_name(&self) -> (r: String)
        ensures
            r@ == self.preferred_name(),
    {
        match &self.vrchat_status_name {
            Some(n) => n.clone(),
            None => self.name.clone(),
        }
    }
}

/// One entry of the current front: who fronts, and in which system.
#[derive(Debug, Clone)]
pub struct FrontEntry {
    pub content: FrontEntryContent,
}

#[derive(Debug, Clone)]
pub struct FrontEntryContent {
    /// The id of a member or of a custom front.
    pub member: String,
    /// The id of the system.
    pub uid: String,
    /// When this entry started, in milliseconds since the Unix epoch.
    pub start_time_millis: i64,
}

/// A custom front: a state that fronts like a member.
#[derive(Debug, Clone)]
pub struct CustomFront {
    pub content: CustomFrontContent,
    pub id: String,
}

#[derive(Debug, Clone)]
pub struct CustomFrontContent {
    pub name: String,
    pub avatar_url: String,
}

/// A member of the system.
#[derive(Debug, Clone)]
pub struct Member {
    pub content: MemberContent,
    pub id: String,
}

#[derive(Debug, Clone)]
pub struct MemberContent {
    pub name: String,
    pub avatar_url: String,
    /// The text-valued custom fields of the member: field id and value.
    pub info: Vec<(String, String)>,
    /// The id of the custom field that holds the platform-specific name.
    pub vrcsn_field_id: Option<String>,
}

/// A custom field that members of the system can fill in.
#[derive(Debug, Clone)]
pub struct CustomField {
    pub id: String,
    pub content: CustomFieldContent,
}

#[derive(Debug, Clone)]
pub struct CustomFieldContent {
    pub name: String,
}

/// The title of the custom field that holds a member's platform-specific name.
pub open spec fn status_name_field_title() -> Seq<char> {
    "VRChat Status Name"@
}

/// The value of the first field with id `id`, if any.
pub open spec fn field_value(fields: Seq<(String, String)>, id: Seq<char>) -> Option<String>
    decreases fields.len(),
{
    if fields.len() == 0 {
        None
    } else if fields[0].0@ == id {
        Some(fields[0].1)
    } else {
        field_value(fields.drop_first(), id)
    }
}

/// A custom front as a fronter.
pub open spec fn custom_front_fronter(cf: CustomFront) -> Fronter {
    Fronter {
        id: cf.id,
        name: cf.content.name,
        avatar_url: cf.content.avatar_url,
        vrchat_status_name: None,
    }
}

/// A member as a fronter, its platform-specific name read from the custom
/// field `field_id`, if that is known.
pub open spec fn member_fronter(m: Member, field_id: Option<String>) -> Fronter {
    Fronter {
        id: m.id,
        name: m.content.name,
        avatar_url: m.content.avatar_url,
        vrchat_status_name: match field_id {
            Some(f) => field_value(m.content.info@, f@),
            None => None,
        },
    }
}

/// A custom front as a fronter: no platform-specific name.
pub fn fronter_from_custom_front(cf: &CustomFront) -> (r: Fronter)
    ensures
        r == custom_front_fronter(*cf),
{
    Fronter {
        id: cf.id.clone(),
        name: cf.content.name.clone(),
        avatar_url: cf.content.avatar_url.clone(),
        vrchat_status_name: None,
    }
}

/// The value of the member's custom field `field_id`, if the member has one.
pub fn custom_field_value(info: &Vec<(String, String)>, field_id: &String) -> (r: Option<String>)
    ensures
        r == field_value(info@, field_id@),
{
    let mut i: usize = 0;
    assert(info@.skip(0) =~= info@);
    while i < info.len()
        invariant
            i <= info.len(),
            field_value(info@, field_id@) == field_value(info@.skip(i as int), field_id@),
        decreases info.len() - i,
    {
        assert(info@.skip(i as int).drop_first() =~= info@.skip(i + 1));
        if info[i].0 == *field_id {
            return Some(info[i].1.clone());
        }
        i = i + 1;
    }
    None
}

/// A member as a fronter: the platform-specific name is the value of the
/// member's custom field that holds it, when that field is known and set.
pub fn fronter_from_member(m: &Member) -> (r: Fronter)
    ensures
        r == member_fronter(*m, m.content.vrcsn_field_id),
{
    let vrchat_status_name = match &m.content.vrcsn_field_id {
        Some(field_id) => custom_field_value(&m.content.info, field_id),
        None => None,
    };
    Fronter {
        id: m.id.clone(),
        name: m.content.name.clone(),
        avatar_url: m.content.avatar_url.clone(),
        vrchat_status_name,
    }
}

/// Whether some entry of the front names `id`.
pub open spec fn is_fronting(id: Seq<char>, front_entries: Seq<FrontEntry>) -> bool {
    exists|i: int| 0 <= i < front_entries.len() && #[trigger] front_entries[i].content.member@ == id
}

/// The frontables that some entry of the front names, in their order.
pub open spec fn fronting_subset(frontables: Seq<Fronter>, front_entries: Seq<FrontEntry>) -> Seq<
    Fronter,
>
    decreases frontables.len(),
{
    if frontables.len() == 0 {
        seq![]
    } else {
        let before = fronting_subset(frontables.drop_last(), front_entries);
        if is_fronting(frontables.last().id@, front_entries) {
            before.push(frontables.last())
        } else {
            before
        }
    }
}

fn named_in_front(id: &String, front_entries: &Vec<FrontEntry>) -> (r: bool)
    ensures
        r == is_fronting(id@, front_entries@),
{
    let mut i: usize = 0;
    while i < front_entries.len()
        invariant
            i <= front_entries.len(),
            forall|j: int| 0 <= j < i ==> #[trigger] front_entries@[j].content.member@ != id@,
        decreases front_entries.len() - i,
    {
        if front_entries[i].content.member == *id {
            return true;
        }
        i = i + 1;
    }
    false
}

/// The frontables that are currently fronting, in the order of `frontables`.
pub fn filter_frontables_by_front_entries(
    front_entries: &Vec<FrontEntry>,
    frontables: &Vec<Fronter>,
) -> (r: Vec<Fronter>)
    ensures
        r@ == fronting_subset(frontables@, front_entries@),
{
    let mut r: Vec<Fronter> = Vec::new();
    let mut i: usize = 0;
    while i < frontables.len()
        invariant
            i <= frontables.len(),
            r@ == fronting_subset(frontables@.take(i as int), front_entries@),
        decreases frontables.len() - i,
    {
        assert(frontables@.take(i + 1).drop_last() =~= frontables@.take(i as int));
        if named_in_front(&frontables[i].id, front_entries) {
            r.push(frontables[i].duplicate());
        }
        i = i + 1;
    }
    assert(frontables@.take(frontables.len() as int) =~= frontables@);
    r
}

/// The id of the custom field titled "VRChat Status Name": the first one
/// with that title, if any.
pub fn vrchat_status_name_field_id(custom_fields: &Vec<CustomField>) -> (r: Option<String>)
    ensures
        r is None <==> forall|i: int|
            0 <= i < custom_fields.len() ==> #[trigger] custom_fields@[i].content.name@
                != status_name_field_title(),
        r is Some ==> exists|i: int|
            0 <= i < custom_fields.len() && #[trigger] custom_fields@[i].content.name@
                == status_name_field_title() && r->0 == custom_fields@[i].id && forall|j: int|
                0 <= j < i ==> custom_fields@[j].content.name@ != status_name_field_title(),
{
    let title = "VRChat Status Name".to_owned();
    let mut i: usize = 0;
    while i < custom_fields.len()
        invariant
            i <= custom_fields.len(),
            title@ == status_name_field_title(),
            forall|j: int|
                0 <= j < i ==> #[trigger] custom_fields@[j].content.name@
                    != status_name_field_title(),
        decreases custom_fields.len() - i,
    {
        if custom_fields[i].content.name == title {
            return Some(custom_fields[i].id.clone());
        }
        i = i + 1;
    }
    None
}

/// The system whose front is reported: the one of the first entry. `None`
/// when nobody fronts.
pub fn system_id_of(front_entries: &Vec<FrontEntry>) -> (r: Option<String>)
    ensures
        front_entries.len() == 0 ==> r is None,
        front_entries.len() > 0 ==> r == Some(front_entries@[0].content.uid),
{
    if front_entries.len() == 0 {
        None
    } else {
        Some(front_entries[0].content.uid.clone())
    }
}

/// Every member and custom front of the system as a fronter: the members
/// first, each told which custom field holds its platform-specific name,
/// then the custom fronts.
pub fn get_all_members_and_custom_fronters(
    members: &Vec<Member>,
    custom_fronts: &Vec<CustomFront>,
    vrcsn_field_id: &Option<String>,
) -> (r: Vec<Fronter>)
    ensures
        r.len() == members.len() + custom_fronts.len(),
        forall|i: int|
            0 <= i < members.len() ==> #[trigger] r@[i] == member_fronter(
                members@[i],
                *vrcsn_field_id,
            ),
        forall|i: int|
            0 <= i < custom_fronts.len() ==> #[trigger] r@[members.len() + i]
                == custom_front_fronter(custom_fronts@[i]),
{
    let mut r: Vec<Fronter> = Vec::new();
    let mut i: usize = 0;
    while i < members.len()
        invariant
            i <= members.len(),
            r.len() == i,
            forall|j: int|
                0 <= j < i ==> #[trigger] r@[j] == member_fronter(members@[j], *vrcsn_field_id),
        decreases members.len() - i,
    {
        let m = &members[i];
        let vrchat_status_name = match vrcsn_field_id {
            Some(field_id) => custom_field_value(&m.content.info, field_id),
            None => None,
        };
        r.push(
            Fronter {
                id: m.id.clone(),
                name: m.content.name.clone(),
                avatar_url: m.content.avatar_url.clone(),
                vrchat_status_name,
            },
        );
        i = i + 1;
    }
    let mut k: usize = 0;
    while k < custom_fronts.len()
        invariant
            k <= custom_fronts.len(),
            r.len() == members.len() + k,
            forall|j: int|
                0 <= j < members.len() ==> #[trigger] r@[j] == member_fronter(
                    members@[j],
                    *vrcsn_field_id,
                ),
            forall|j: int|
                0 <= j < k ==> #[trigger] r@[members.len() + j] == custom_front_fronter(
                    custom_fronts@[j],
                ),
        decreases custom_fronts.len() - k,
    {
        r.push(fronter_from_custom_front(&custom_fronts[k]));
        k = k + 1;
    }
    r
}

} // verus!
