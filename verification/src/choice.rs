//! Choosing among phones that are ready.

use vstd::prelude::*;

use crate::device::ConnectedPhone;
use crate::text::two;

verus! {

/// One option for each phone, in their order, and then the others.
pub open spec fn options_for(phones: Seq<ConnectedPhone>, others: Seq<Seq<char>>) -> Seq<
    Seq<char>,
> {
    phones.map_values(|phone: ConnectedPhone| "Use "@ + phone.display_name@) + others
}

/// The phone for a choice that counts from one, if the choice is one of the phones.
pub open spec fn chosen(phones: Seq<ConnectedPhone>, selected: int) -> Option<ConnectedPhone> {
    if 1 <= selected <= phones.len() {
        Some(phones[selected - 1])
    } else {
        None
    }
}

/// One option for each phone.
pub fn phone_options(phones: &Vec<ConnectedPhone>) -> (options: Vec<String>)
    ensures
        options.deep_view() == options_for(phones@, seq![]),
{
    let mut options: Vec<String> = Vec::new();
    let mut i: usize = 0;
    while i < phones.len()
        invariant
            i <= phones.len(),
            options.len() == i,
            forall|j: int|
                0 <= j < i ==> (#[trigger] options@[j])@ == "Use "@ + phones@[j].display_name@,
        decreases phones.len() - i,
    {
        options.push(two("Use ", phones[i].display_name.as_str()));
        i = i + 1;
    }
    assert(options.deep_view() =~= options_for(phones@, seq![]));
    options
}

/// One more option.
pub fn with_option(options: Vec<String>, option: &str) -> (more: Vec<String>)
    ensures
        more.deep_view() == options.deep_view().push(option@),
{
    let ghost before = options.deep_view();
    let mut more = options;
    more.push(option.to_owned());
    assert(more.deep_view() =~= before.push(option@));
    more
}

/// The phone for a choice that counts from one, if the choice is one of the phones.
pub fn chosen_phone(phones: &Vec<ConnectedPhone>, selected: usize) -> (phone: Option<
    ConnectedPhone,
>)
    requires
        selected >= 1,
    ensures
        phone == chosen(phones@, selected as int),
{
    if selected <= phones.len() {
        Some(phones[selected - 1].clone())
    } else {
        None
    }
}

/// Whoever chooses the option with the name of a phone gets that phone.
pub proof fn law_option_and_phone_agree(
    phones: Seq<ConnectedPhone>,
    others: Seq<Seq<char>>,
    selected: int,
)
    requires
        1 <= selected <= options_for(phones, others).len(),
    ensures
        match chosen(phones, selected) {
            Some(phone) => options_for(phones, others)[selected - 1] == "Use "@
                + phone.display_name@,
            None => options_for(phones, others)[selected - 1] == others[selected - 1
                - phones.len()],
        },
{
}

/// The options are as many as the phones and the others together, and the k-th choice is the k-th
/// phone, as long as there is one.
pub proof fn law_choices_count_from_one(
    phones: Seq<ConnectedPhone>,
    others: Seq<Seq<char>>,
    k: int,
)
    requires
        1 <= k,
    ensures
        options_for(phones, others).len() == phones.len() + others.len(),
        k <= phones.len() ==> chosen(phones, k) == Some(phones[k - 1]),
        k > phones.len() ==> chosen(phones, k) is None,
{
}

} // verus!
