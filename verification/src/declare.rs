//! What the declaration of a virtual machine is made of: the names derived from the type's
//! name, and the name, capabilities and version that the declaration states.

use crate::ffi::evmc_capabilities;
use heck::ShoutySnakeCase;
use heck::SnakeCase;
use vstd::prelude::*;

verus! {

/// The shouty snake case of a text, as `heck` computes it.
pub uninterp spec fn shouty_snake_case(text: Seq<char>) -> Seq<char>;

/// The snake case of a text, as `heck` computes it.
pub uninterp spec fn snake_case(text: Seq<char>) -> Seq<char>;

/// Calls `heck::ShoutySnakeCase::to_shouty_snake_case` on a `str`. The result depends on
/// the text alone; the contract gives it its name and claims nothing else of it.
#[verifier::external_body]
fn to_shouty_snake_case(text: &str) -> (converted: String)
    ensures
        converted@ == shouty_snake_case(text@),
{
    text.to_shouty_snake_case()
}

/// Calls `heck::SnakeCase::to_snake_case` on a `str`. The result depends on the text
/// alone; the contract gives it its name and claims nothing else of it.
#[verifier::external_body]
fn to_snake_case(text: &str) -> (converted: String)
    ensures
        converted@ == snake_case(text@),
{
    text.to_snake_case()
}

/// Calls `String::push`, which appends the character to the end of the string.
#[verifier::external_body]
fn string_push(text: &mut String, c: char)
    ensures
        final(text)@ == old(text)@.push(c),
{
    text.push(c)
}

/// The text without its underscores.
pub open spec fn without_underscores(text: Seq<char>) -> Seq<char> {
    text.filter(|c: char| c != '_')
}

/// Whether a character of a capability list counts: spaces and underscores do not.
pub open spec fn counts(c: char) -> bool {
    c != '_' && c != ' '
}

/// The capability list without the characters that do not count.
pub open spec fn pruned(list: Seq<char>) -> Seq<char> {
    list.filter(|c: char| counts(c))
}

/// The items of a text that are set apart by `separator`, in order. A text without a
/// separator is one item, the empty text too, and each separator starts another item.
pub open spec fn split_on(text: Seq<char>, separator: char) -> Seq<Seq<char>>
    decreases text.len(),
{
    if text.len() == 0 {
        seq![Seq::<char>::empty()]
    } else {
        let before = split_on(text.drop_last(), separator);
        if text.last() == separator {
            before.push(Seq::<char>::empty())
        } else {
            before.drop_last().push(before.last().push(text.last()))
        }
    }
}

/// The capability that a name stands for: `evm`, `ewasm` or `precompiles`.
pub open spec fn capability_of(name: Seq<char>) -> Option<evmc_capabilities> {
    if name == "evm"@ {
        Some(evmc_capabilities::EVMC_CAPABILITY_EVM1)
    } else if name == "ewasm"@ {
        Some(evmc_capabilities::EVMC_CAPABILITY_EWASM)
    } else if name == "precompiles"@ {
        Some(evmc_capabilities::EVMC_CAPABILITY_PRECOMPILES)
    } else {
        None
    }
}

/// Whether every item is the name of a capability.
pub open spec fn all_capabilities(items: Seq<Seq<char>>) -> bool {
    forall|i: int| 0 <= i < items.len() ==> (#[trigger] capability_of(items[i])) is Some
}

/// Whether some item names the capability.
pub open spec fn names_capability(items: Seq<Seq<char>>, capability: evmc_capabilities) -> bool {
    exists|i: int| 0 <= i < items.len() && #[trigger] capability_of(items[i]) == Some(capability)
}

/// The bit of the capability if some item names it, else zero.
pub open spec fn capability_bit(items: Seq<Seq<char>>, capability: evmc_capabilities) -> int {
    if names_capability(items, capability) {
        capability.wire_value()
    } else {
        0
    }
}

/// The flag set that a capability list states: the list is pruned and split at its commas,
/// and if every item names a capability, the set has the bit of each capability named.
/// A list with an item that names none states no set.
pub open spec fn capability_flags(list: Seq<char>) -> Option<u32> {
    let items = split_on(pruned(list), ',');
    if all_capabilities(items) {
        Some(
            (capability_bit(items, evmc_capabilities::EVMC_CAPABILITY_EVM1) + capability_bit(
                items,
                evmc_capabilities::EVMC_CAPABILITY_EWASM,
            ) + capability_bit(items, evmc_capabilities::EVMC_CAPABILITY_PRECOMPILES)) as u32,
        )
    } else {
        None
    }
}

proof fn lemma_without_underscores_push(text: Seq<char>, c: char)
    ensures
        without_underscores(text.push(c)) == if c != '_' {
            without_underscores(text).push(c)
        } else {
            without_underscores(text)
        },
        without_underscores(Seq::<char>::empty()) == Seq::<char>::empty(),
{
    reveal(Seq::filter);
    assert(text.push(c).drop_last() =~= text);
}

proof fn lemma_pruned_push(list: Seq<char>, c: char)
    ensures
        pruned(list.push(c)) == if counts(c) {
            pruned(list).push(c)
        } else {
            pruned(list)
        },
        pruned(Seq::<char>::empty()) == Seq::<char>::empty(),
{
    reveal(Seq::filter);
    assert(list.push(c).drop_last() =~= list);
}

proof fn lemma_split_on_push(text: Seq<char>, separator: char, c: char)
    ensures
        split_on(text, separator).len() > 0,
        split_on(text.push(c), separator) == if c == separator {
            split_on(text, separator).push(Seq::<char>::empty())
        } else {
            split_on(text, separator).drop_last().push(
                split_on(text, separator).last().push(c),
            )
        },
    decreases text.len(),
{
    assert(text.push(c).drop_last() =~= text);
    if text.len() > 0 {
        lemma_split_on_push(text.drop_last(), separator, text.last());
    }
}

proof fn lemma_items_push(items: Seq<Seq<char>>, item: Seq<char>, capability: evmc_capabilities)
    ensures
        all_capabilities(items.push(item)) == (all_capabilities(items) && capability_of(item)
            is Some),
        names_capability(items.push(item), capability) == (names_capability(items, capability)
            || capability_of(item) == Some(capability)),
{
    let pushed = items.push(item);
    assert(pushed[items.len() as int] == item);
    assert forall|i: int| 0 <= i < items.len() implies pushed[i] == items[i] by {}
}

/// Whether the characters are those of the text.
fn is_text(chars: &Vec<char>, text: &str) -> (same: bool)
    ensures
        same == (chars@ == text@),
{
    let len: usize = text.unicode_len();
    if chars.len() != len {
        return false;
    }
    let mut i: usize = 0;
    while i < len
        invariant
            i <= len,
            len == text@.len(),
            len == chars@.len(),
            forall|j: int| 0 <= j < i ==> chars@[j] == text@[j],
        decreases len - i,
    {
        if chars[i] != text.get_char(i) {
            return false;
        }
        i += 1;
    }
    assert(chars@ =~= text@);
    true
}

/// The capability that the characters name, if they name one.
fn capability_named(name: &Vec<char>) -> (capability: Option<evmc_capabilities>)
    ensures
        capability == capability_of(name@),
{
    if is_text(name, "evm") {
        Some(evmc_capabilities::EVMC_CAPABILITY_EVM1)
    } else if is_text(name, "ewasm") {
        Some(evmc_capabilities::EVMC_CAPABILITY_EWASM)
    } else if is_text(name, "precompiles") {
        Some(evmc_capabilities::EVMC_CAPABILITY_PRECOMPILES)
    } else {
        None
    }
}

/// Reads a capability list such as `"ewasm, evm"`: names of capabilities set apart by
/// commas, in which spaces and underscores do not count. Gives the flag set with the bit
/// of each capability named, or `None` where an item names no capability, as the one item
/// of the empty list does.
pub fn parse_capabilities(list: &str) -> (flags: Option<u32>)
    ensures
        flags == capability_flags(list@),
{
    let len: usize = list.unicode_len();
    let mut item: Vec<char> = Vec::new();
    let mut known: bool = true;
    let mut evm: bool = false;
    let mut ewasm: bool = false;
    let mut precompiles: bool = false;
    let mut i: usize = 0;
    proof {
        lemma_pruned_push(Seq::<char>::empty(), ' ');
    }
    while i < len
        invariant
            i <= len,
            len == list@.len(),
            split_on(pruned(list@.take(i as int)), ',').len() > 0,
            item@ == split_on(pruned(list@.take(i as int)), ',').last(),
            known == all_capabilities(split_on(pruned(list@.take(i as int)), ',').drop_last()),
            evm == names_capability(
                split_on(pruned(list@.take(i as int)), ',').drop_last(),
                evmc_capabilities::EVMC_CAPABILITY_EVM1,
            ),
            ewasm == names_capability(
                split_on(pruned(list@.take(i as int)), ',').drop_last(),
                evmc_capabilities::EVMC_CAPABILITY_EWASM,
            ),
            precompiles == names_capability(
                split_on(pruned(list@.take(i as int)), ',').drop_last(),
                evmc_capabilities::EVMC_CAPABILITY_PRECOMPILES,
            ),
        decreases len - i,
    {
        let c: char = list.get_char(i);
        let ghost before = split_on(pruned(list@.take(i as int)), ',');
        proof {
            assert(list@.take(i + 1) =~= list@.take(i as int).push(c));
            lemma_pruned_push(list@.take(i as int), c);
            lemma_split_on_push(pruned(list@.take(i as int)), ',', c);
        }
        if c == '_' || c == ' ' {
        } else if c == ',' {
            let capability = capability_named(&item);
            proof {
                assert(before.push(Seq::<char>::empty()).drop_last() =~= before);
                assert(before =~= before.drop_last().push(before.last()));
                lemma_items_push(
                    before.drop_last(),
                    before.last(),
                    evmc_capabilities::EVMC_CAPABILITY_EVM1,
                );
                lemma_items_push(
                    before.drop_last(),
                    before.last(),
                    evmc_capabilities::EVMC_CAPABILITY_EWASM,
                );
                lemma_items_push(
                    before.drop_last(),
                    before.last(),
                    evmc_capabilities::EVMC_CAPABILITY_PRECOMPILES,
                );
            }
            match capability {
                Some(evmc_capabilities::EVMC_CAPABILITY_EVM1) => {
                    evm = true;
                },
                Some(evmc_capabilities::EVMC_CAPABILITY_EWASM) => {
                    ewasm = true;
                },
                Some(evmc_capabilities::EVMC_CAPABILITY_PRECOMPILES) => {
                    precompiles = true;
                },
                None => {
                    known = false;
                },
            }
            item = Vec::new();
        } else {
            item.push(c);
            proof {
                assert(before.drop_last().push(before.last().push(c)).drop_last()
                    =~= before.drop_last());
            }
        }
        i += 1;
    }
    let capability = capability_named(&item);
    let ghost items = split_on(pruned(list@), ',');
    proof {
        assert(list@.take(len as int) =~= list@);
        assert(items =~= items.drop_last().push(items.last()));
        lemma_items_push(
            items.drop_last(),
            items.last(),
            evmc_capabilities::EVMC_CAPABILITY_EVM1,
        );
        lemma_items_push(
            items.drop_last(),
            items.last(),
            evmc_capabilities::EVMC_CAPABILITY_EWASM,
        );
        lemma_items_push(
            items.drop_last(),
            items.last(),
            evmc_capabilities::EVMC_CAPABILITY_PRECOMPILES,
        );
    }
    match capability {
        Some(evmc_capabilities::EVMC_CAPABILITY_EVM1) => {
            evm = true;
        },
        Some(evmc_capabilities::EVMC_CAPABILITY_EWASM) => {
            ewasm = true;
        },
        Some(evmc_capabilities::EVMC_CAPABILITY_PRECOMPILES) => {
            precompiles = true;
        },
        None => {
            known = false;
        },
    }
    if !known {
        return None;
    }
    let mut flags: u32 = 0;
    if evm {
        flags = flags + evmc_capabilities::EVMC_CAPABILITY_EVM1.to_wire();
    }
    if ewasm {
        flags = flags + evmc_capabilities::EVMC_CAPABILITY_EWASM.to_wire();
    }
    if precompiles {
        flags = flags + evmc_capabilities::EVMC_CAPABILITY_PRECOMPILES.to_wire();
    }
    Some(flags)
}

/// Whether the text holds a NUL character.
pub fn contains_nul(text: &str) -> (found: bool)
    ensures
        found == text@.contains('\0'),
{
    let len: usize = text.unicode_len();
    let mut i: usize = 0;
    while i < len
        invariant
            i <= len,
            len == text@.len(),
            forall|j: int| 0 <= j < i ==> text@[j] != '\0',
        decreases len - i,
    {
        if text.get_char(i) == '\0' {
            return true;
        }
        i += 1;
    }
    false
}

/// The text without its underscores, as a string of its own.
pub fn remove_underscores(text: &str) -> (removed: String)
    ensures
        removed@ == without_underscores(text@),
{
    let len: usize = text.unicode_len();
    let mut removed = String::new();
    let mut i: usize = 0;
    proof {
        lemma_without_underscores_push(Seq::<char>::empty(), ' ');
    }
    while i < len
        invariant
            i <= len,
            len == text@.len(),
            removed@ == without_underscores(text@.take(i as int)),
        decreases len - i,
    {
        let c: char = text.get_char(i);
        proof {
            assert(text@.take(i + 1) =~= text@.take(i as int).push(c));
            lemma_without_underscores_push(text@.take(i as int), c);
        }
        if c != '_' {
            string_push(&mut removed, c);
        }
        i += 1;
    }
    proof {
        assert(text@.take(len as int) =~= text@);
    }
    removed
}

/// The names under which the items of a declared virtual machine go.
pub struct VMNameSet {
    struct_name: String,
    name_allcaps: String,
    name_lowercase: String,
}

impl VMNameSet {
    /// The name of the type, as it was given.
    pub closed spec fn struct_name(&self) -> Seq<char> {
        self.struct_name@
    }

    /// The name in capitals.
    pub closed spec fn name_allcaps(&self) -> Seq<char> {
        self.name_allcaps@
    }

    /// The name in lower case.
    pub closed spec fn name_lowercase(&self) -> Seq<char> {
        self.name_lowercase@
    }

    /// The names that go with a type's name: the name itself, its shouty snake case, and
    /// its snake case without the underscores.
    pub fn new(ident: String) -> (names: Self)
        ensures
            names.struct_name() == ident@,
            names.name_allcaps() == shouty_snake_case(ident@),
            names.name_lowercase() == without_underscores(snake_case(ident@)),
    {
        let caps = to_shouty_snake_case(ident.as_str());
        let snake = to_snake_case(ident.as_str());
        let lowercase = remove_underscores(snake.as_str());
        VMNameSet { struct_name: ident, name_allcaps: caps, name_lowercase: lowercase }
    }

    /// Return a reference to the struct name, as a string.
    pub fn get_type_name(&self) -> (name: &String)
        ensures
            name@ == self.struct_name(),
    {
        &self.struct_name
    }

    /// Return a reference to the name in shouty snake case.
    pub fn get_name_caps(&self) -> (name: &String)
        ensures
            name@ == self.name_allcaps(),
    {
        &self.name_allcaps
    }

    /// Return a reference to the name in lowercase, with all underscores removed. (Used for
    /// symbols like evmc_create_vmname)
    pub fn get_name_lowercase(&self) -> (name: &String)
        ensures
            name@ == self.name_lowercase(),
    {
        &self.name_lowercase
    }

    /// The text of the identifier that names the struct.
    pub fn get_type_as_ident(&self) -> (ident: String)
        ensures
            ident@ == self.struct_name(),
    {
        self.struct_name.clone()
    }

    /// The text of the identifier made of the lowercase name and `suffix` behind it.
    pub fn get_lowercase_as_ident_append(&self, suffix: &str) -> (ident: String)
        ensures
            ident@ == self.name_lowercase() + suffix@,
    {
        self.name_lowercase.clone().concat(suffix)
    }

    /// The text of the identifier made of `prefix` and the lowercase name behind it.
    pub fn get_lowercase_as_ident_prepend(&self, prefix: &str) -> (ident: String)
        ensures
            ident@ == prefix@ + self.name_lowercase(),
    {
        String::from_str(prefix).concat(self.name_lowercase.as_str())
    }

    /// The text of the identifier made of the name in capitals and `suffix` behind it.
    pub fn get_caps_as_ident_append(&self, suffix: &str) -> (ident: String)
        ensures
            ident@ == self.name_allcaps() + suffix@,
    {
        self.name_allcaps.clone().concat(suffix)
    }
}

/// What the declaration of a virtual machine states of it.
pub struct VMMetaData {
    capabilities: u32,
    // Not included in VMNameSet because it is parsed from the meta-item arguments.
    name_stylized: String,
    custom_version: String,
}

impl VMMetaData {
    #[verifier::type_invariant]
    spec fn terminated(&self) -> bool {
        &&& self.name_stylized@.len() > 0
        &&& self.name_stylized@.last() == '\0'
        &&& !self.name_stylized@.drop_last().contains('\0')
        &&& self.custom_version@.len() > 0
        &&& self.custom_version@.last() == '\0'
        &&& !self.custom_version@.drop_last().contains('\0')
    }

    /// The flag set of the capabilities.
    pub closed spec fn capabilities(&self) -> u32 {
        self.capabilities
    }

    /// The stylized name, with its terminator.
    pub closed spec fn name_stylized(&self) -> Seq<char> {
        self.name_stylized@
    }

    /// The version, with its terminator.
    pub closed spec fn custom_version(&self) -> Seq<char> {
        self.custom_version@
    }

    /// Whether the three texts of a declaration can be taken: the capability list states a
    /// flag set, and neither the name nor the version holds a NUL character, which would end
    /// the text early once it is read as a C string.
    pub open spec fn accepts(name: Seq<char>, capabilities: Seq<char>, version: Seq<char>) -> bool {
        &&& capability_flags(capabilities) is Some
        &&& !name.contains('\0')
        &&& !version.contains('\0')
    }

    /// Tests `accepts` on the three texts of a declaration.
    pub fn is_acceptable(name: &str, capabilities: &str, version: &str) -> (ok: bool)
        ensures
            ok == Self::accepts(name@, capabilities@, version@),
    {
        parse_capabilities(capabilities).is_some() && !contains_nul(name) && !contains_nul(
            version,
        )
    }

    /// Takes the three texts of a declaration: the stylized name, the capability list and
    /// the version. The name and the version each get a NUL terminator, which is then the
    /// only NUL in them.
    pub fn new(name: &str, capabilities: &str, version: &str) -> (data: Self)
        requires
            Self::accepts(name@, capabilities@, version@),
        ensures
            Some(data.capabilities()) == capability_flags(capabilities@),
            data.name_stylized() == name@.push('\0'),
            data.custom_version() == version@.push('\0'),
    {
        // Add a null terminator here to ensure that it is handled correctly when
        // converted to a C String.
        let mut vm_name_string = String::from_str(name);
        string_push(&mut vm_name_string, '\0');
        let capabilities_flags: u32 = match parse_capabilities(capabilities) {
            Some(flags) => flags,
            None => 0,
        };
        let mut vm_version_string = String::from_str(version);
        string_push(&mut vm_version_string, '\0');
        proof {
            assert(name@.push('\0').drop_last() =~= name@);
            assert(version@.push('\0').drop_last() =~= version@);
        }
        VMMetaData {
            capabilities: capabilities_flags,
            name_stylized: vm_name_string,
            custom_version: vm_version_string,
        }
    }

    /// The flag set of the declared capabilities.
    pub fn get_capabilities(&self) -> (capabilities: u32)
        ensures
            capabilities == self.capabilities(),
    {
        self.capabilities
    }

    /// The stylized name. Its last character is a NUL, and its only one.
    pub fn get_name_stylized_nulterm(&self) -> (name: &String)
        ensures
            name@ == self.name_stylized(),
            name@.len() > 0,
            name@.last() == '\0',
            !name@.drop_last().contains('\0'),
    {
        proof {
            use_type_invariant(self);
        }
        &self.name_stylized
    }

    /// The version. Its last character is a NUL, and its only one.
    pub fn get_custom_version_nulterm(&self) -> (version: &String)
        ensures
            version@ == self.custom_version(),
            version@.len() > 0,
            version@.last() == '\0',
            !version@.drop_last().contains('\0'),
    {
        proof {
            use_type_invariant(self);
        }
        &self.custom_version
    }
}

/// The items with `separator` between each two of them, as one text.
pub open spec fn joined(items: Seq<Seq<char>>, separator: char) -> Seq<char>
    decreases items.len(),
{
    if items.len() == 0 {
        Seq::<char>::empty()
    } else if items.len() == 1 {
        items[0]
    } else {
        joined(items.drop_last(), separator).push(separator) + items.last()
    }
}

/// Splitting loses nothing and invents nothing: there is at least one item, no item holds
/// the separator, and the items joined by the separator are the text.
pub proof fn lemma_split_on_joined(text: Seq<char>, separator: char)
    ensures
        split_on(text, separator).len() >= 1,
        forall|i: int|
            0 <= i < split_on(text, separator).len() ==> !(#[trigger] split_on(
                text,
                separator,
            )[i]).contains(separator),
        joined(split_on(text, separator), separator) == text,
    decreases text.len(),
{
    let items = split_on(text, separator);
    if text.len() > 0 {
        let before = split_on(text.drop_last(), separator);
        lemma_split_on_joined(text.drop_last(), separator);
        if text.last() == separator {
            assert(items.drop_last() =~= before);
        } else {
            let grown = before.last().push(text.last());
            assert(items.drop_last() =~= before.drop_last());
            assert forall|i: int| 0 <= i < items.len() implies !(#[trigger] items[i]).contains(
                separator,
            ) by {
                if i == items.len() - 1 {
                    assert forall|j: int| 0 <= j < grown.len() implies grown[j] != separator by {}
                }
            }
            assert(joined(items, separator) =~= joined(before, separator).push(text.last()));
        }
    }
}

/// Pruning takes out what does not count and nothing else: no space and no underscore is
/// left, and a list without spaces and underscores is left as it is.
pub proof fn lemma_pruned(list: Seq<char>)
    ensures
        forall|i: int| 0 <= i < pruned(list).len() ==> counts(#[trigger] pruned(list)[i]),
        (forall|i: int| 0 <= i < list.len() ==> counts(#[trigger] list[i])) ==> pruned(list)
            == list,
    decreases list.len(),
{
    reveal(Seq::filter);
    if list.len() > 0 {
        lemma_pruned(list.drop_last());
        lemma_pruned_push(list.drop_last(), list.last());
        if forall|i: int| 0 <= i < list.len() ==> counts(#[trigger] list[i]) {
            assert forall|i: int| 0 <= i < list.drop_last().len() implies counts(
                #[trigger] list.drop_last()[i],
            ) by {}
        }
    }
}

/// A flag set that a capability list states has no bit but those of the three
/// capabilities.
pub proof fn lemma_capability_flags_bound(list: Seq<char>)
    requires
        capability_flags(list) is Some,
    ensures
        capability_flags(list)->0 <= 7,
{
}

} // verus!
