use vstd::prelude::*;
use crate::schema::names_model;
use convert_case::Case;
use convert_case::Casing;

verus! {

/// The byte string that the snake-case conversion produces for the given
/// identifier bytes.
pub uninterp spec fn snake_of(ident: Seq<u8>) -> Seq<u8>;

/// Relies on convert_case's `Casing::to_case` with `Case::Snake`: lowercase
/// words joined by underscores, a pure function of the input text alone.
#[verifier::external_body]
pub(crate) fn to_snake(ident: &Vec<u8>) -> (r: Vec<u8>)
    ensures
        r@ == snake_of(ident@),
{
    String::from_utf8_lossy(ident.as_slice()).to_case(Case::Snake).into_bytes()
}

/// An owned copy of a byte string.
pub fn copy_bytes(src: &Vec<u8>) -> (r: Vec<u8>)
    ensures
        r@ == src@,
{
    let mut r: Vec<u8> = Vec::new();
    let mut i: usize = 0;
    while i < src.len()
        invariant
            i <= src.len(),
            r@ == src@.subrange(0, i as int),
        decreases src.len() - i,
    {
        r.push(src[i]);
        i += 1;
    }
    proof {
        assert(src@.subrange(0, src@.len() as int) =~= src@);
    }
    r
}

/// Append every byte of `src` to the end of `dst`.
pub fn extend_bytes(dst: &mut Vec<u8>, src: &Vec<u8>)
    ensures
        final(dst)@ == old(dst)@ + src@,
{
    let mut i: usize = 0;
    while i < src.len()
        invariant
            i <= src.len(),
            dst@ == old(dst)@ + src@.subrange(0, i as int),
        decreases src.len() - i,
    {
        dst.push(src[i]);
        i += 1;
    }
    proof {
        assert(src@.subrange(0, src@.len() as int) =~= src@);
    }
}

/// The byte that separates the parts of a generated name.
pub open spec fn sep() -> Seq<u8> {
    seq!['_' as u8]
}

/// The generated name of a per-field or per-variant operation:
/// the entity and member names in snake case around the operation word.
pub open spec fn member_fn_name(entity: Seq<u8>, op: Seq<u8>, member: Seq<u8>) -> Seq<u8> {
    snake_of(entity) + sep() + op + sep() + snake_of(member)
}

/// The generated name of a whole-entity operation: the entity name in snake
/// case, then the operation word.
pub open spec fn entity_fn_name(entity: Seq<u8>, op: Seq<u8>) -> Seq<u8> {
    snake_of(entity) + sep() + op
}

/// The snake-cased field names of one named constructor, joined by the
/// separator.
pub open spec fn joined_snake(names: Seq<Seq<u8>>) -> Seq<u8>
    decreases names.len(),
{
    if names.len() == 0 {
        seq![]
    } else if names.len() == 1 {
        snake_of(names[0])
    } else {
        joined_snake(names.drop_last()) + sep() + snake_of(names.last())
    }
}

/// Build `entity op member`, each part separated by an underscore, with the
/// entity and member names converted to snake case.
pub fn build_member_fn_name(entity: &Vec<u8>, op: &Vec<u8>, member: &Vec<u8>) -> (r: Vec<u8>)
    ensures
        r@ == member_fn_name(entity@, op@, member@),
{
    let mut r = to_snake(entity);
    r.push('_' as u8);
    extend_bytes(&mut r, op);
    r.push('_' as u8);
    let tail = to_snake(member);
    extend_bytes(&mut r, &tail);
    proof {
        assert(r@ =~= member_fn_name(entity@, op@, member@));
    }
    r
}

/// Build `entity op`, separated by an underscore, with the entity name
/// converted to snake case.
pub fn build_entity_fn_name(entity: &Vec<u8>, op: &Vec<u8>) -> (r: Vec<u8>)
    ensures
        r@ == entity_fn_name(entity@, op@),
{
    let mut r = to_snake(entity);
    r.push('_' as u8);
    extend_bytes(&mut r, op);
    proof {
        assert(r@ =~= entity_fn_name(entity@, op@));
    }
    r
}

/// Join the snake-cased names with underscores.
pub fn build_joined_snake(names: &Vec<Vec<u8>>) -> (r: Vec<u8>)
    ensures
        r@ == joined_snake(names_model(names@)),
{
    let ghost m = names_model(names@);
    let mut r: Vec<u8> = Vec::new();
    let mut i: usize = 0;
    while i < names.len()
        invariant
            i <= names.len(),
            m == names_model(names@),
            m.len() == names@.len(),
            r@ == joined_snake(m.subrange(0, i as int)),
        decreases names.len() - i,
    {
        if i > 0 {
            r.push('_' as u8);
        }
        let part = to_snake(&names[i]);
        extend_bytes(&mut r, &part);
        proof {
            let pre = m.subrange(0, i as int);
            let now = m.subrange(0, i + 1 as int);
            assert(now.drop_last() =~= pre);
            assert(now.last() == m[i as int]);
            assert(r@ =~= joined_snake(now));
        }
        i += 1;
    }
    proof {
        assert(m.subrange(0, m.len() as int) =~= m);
    }
    r
}

/// Two of the generated names are the same byte string.
pub open spec fn has_collision(names: Seq<Seq<u8>>) -> bool {
    exists|i: int, j: int| 0 <= i < j < names.len() && names[i] == names[j]
}

/// Search the generated names for a pair that collides.
pub fn find_collision(names: &Vec<Vec<u8>>) -> (r: bool)
    ensures
        r == has_collision(names_model(names@)),
{
    let ghost m = names_model(names@);
    let mut i: usize = 0;
    while i < names.len()
        invariant
            i <= names.len(),
            m == names_model(names@),
            m.len() == names@.len(),
            forall|a: int, b: int| 0 <= a < b < m.len() && a < i ==> m[a] != m[b],
        decreases names.len() - i,
    {
        let mut j: usize = i + 1;
        while j < names.len()
            invariant
                i < j || j == i + 1,
                i <= names.len(),
                j <= names.len(),
                m == names_model(names@),
                m.len() == names@.len(),
                forall|b: int| i < b < j ==> m[i as int] != m[b],
            decreases names.len() - j,
        {
            if &names[i] == &names[j] {
                proof {
                    assert(m[i as int] == m[j as int]);
                }
                return true;
            }
            j += 1;
        }
        i += 1;
    }
    false
}

} // verus!
