use vstd::prelude::*;
use vstd::std_specs::cmp::PartialEqSpecImpl;

use crate::module_type::{lemma_names, ModuleType};
use crate::text::lemma_first_index_of_unique;
use crate::text::concat;

verus! {

/// The key of a module in the module graph. It is computed once, when the
/// module is made, and never changes.
#[derive(Debug)]
pub struct ModuleIdentifier {
    text: String,
}

impl View for ModuleIdentifier {
    type V = Seq<char>;

    closed spec fn view(&self) -> Seq<char> {
        self.text@
    }
}

impl PartialEq for ModuleIdentifier {
    fn eq(&self, other: &Self) -> (r: bool) {
        self.text == other.text
    }
}

impl PartialEqSpecImpl for ModuleIdentifier {
    open spec fn obeys_eq_spec() -> bool {
        true
    }

    open spec fn eq_spec(&self, other: &Self) -> bool {
        self@ == other@
    }
}

impl Eq for ModuleIdentifier {

}

impl ModuleIdentifier {
    /// The identifier with the given text.
    pub fn from(text: String) -> (id: Self)
        ensures
            id@ == text@,
    {
        ModuleIdentifier { text }
    }

    pub fn as_str(&self) -> (s: &str)
        ensures
            s@ == self@,
    {
        self.text.as_str()
    }

    pub fn duplicate(&self) -> (id: Self)
        ensures
            id@ == self@,
    {
        ModuleIdentifier { text: self.text.clone() }
    }
}

/// The identifier of the module of the given type for the given request:
/// the request itself for the default type, otherwise the type's name, `|`
/// and the request.
pub open spec fn identifier_of(module_type: ModuleType, request: Seq<char>) -> Seq<char> {
    if module_type is Js {
        request
    } else {
        module_type.name() + seq!['|'] + request
    }
}

/// Computes the identifier of a module from its type and request.
pub fn make_identifier(module_type: ModuleType, request: &str) -> (id: ModuleIdentifier)
    ensures
        id@ == identifier_of(module_type, request@),
{
    if module_type.is_default() {
        ModuleIdentifier::from(request.to_owned())
    } else {
        proof {
            reveal_strlit("|");
            assert("|"@ == seq!['|']);
        }
        let head = concat(module_type.as_str(), "|");
        ModuleIdentifier::from(concat(head.as_str(), request))
    }
}

/// Modules of one type with different requests have different identifiers.
pub proof fn lemma_identifier_injective_in_request(
    module_type: ModuleType,
    r1: Seq<char>,
    r2: Seq<char>,
)
    ensures
        identifier_of(module_type, r1) == identifier_of(module_type, r2) <==> r1 == r2,
{
    if identifier_of(module_type, r1) == identifier_of(module_type, r2) && !(module_type is Js) {
        let head = module_type.name() + seq!['|'];
        let a = head + r1;
        let b = head + r2;
        assert(a == b);
        assert(a.subrange(head.len() as int, a.len() as int) == r1);
        assert(b.subrange(head.len() as int, b.len() as int) == r2);
    }
}

/// Whether the two origins are a pair that shares one identifier although
/// the requests differ: one module is of the default type, and its request
/// is the text that names the other module's type and request.
pub open spec fn identifiers_collide(
    t1: ModuleType,
    r1: Seq<char>,
    t2: ModuleType,
    r2: Seq<char>,
) -> bool {
    ||| t1 is Js && !(t2 is Js) && r1 == identifier_of(t2, r2)
    ||| t2 is Js && !(t1 is Js) && r2 == identifier_of(t1, r1)
}

/// Modules with different requests have different identifiers, whatever
/// their types, but for the pairs that collide.
pub proof fn lemma_identifier_distinguishes_requests(
    t1: ModuleType,
    r1: Seq<char>,
    t2: ModuleType,
    r2: Seq<char>,
)
    requires
        r1 != r2,
        !identifiers_collide(t1, r1, t2, r2),
    ensures
        identifier_of(t1, r1) != identifier_of(t2, r2),
{
    if identifier_of(t1, r1) == identifier_of(t2, r2) {
        if t1 == t2 {
            lemma_identifier_injective_in_request(t1, r1, r2);
        } else if !(t1 is Js) && !(t2 is Js) {
            let a = identifier_of(t1, r1);
            let n1 = t1.name();
            let n2 = t2.name();
            lemma_names(t1, t2);
            lemma_names(t2, t1);
            assert(a[n1.len() as int] == '|');
            assert(a[n2.len() as int] == '|');
            assert forall|j: int| 0 <= j < n1.len() implies a[j] != '|' by {
                assert(a[j] == n1[j]);
            }
            assert forall|j: int| 0 <= j < n2.len() implies a[j] != '|' by {
                assert(identifier_of(t2, r2)[j] == n2[j]);
            }
            lemma_first_index_of_unique(a, '|', n1.len() as int);
            lemma_first_index_of_unique(a, '|', n2.len() as int);
            assert(n1.len() == n2.len());
            assert(n1 =~= n2) by {
                assert forall|j: int| 0 <= j < n1.len() implies n1[j] == n2[j] by {
                    assert(a[j] == n1[j]);
                    assert(identifier_of(t2, r2)[j] == n2[j]);
                }
            }
        }
    }
}

} // verus!
