use vstd::prelude::*;

verus! {

/// Lowest address the symbol map covers: lookups never walk below it.
pub const SYMBOL_FLOOR: u64 = 0xf00000000;

/// Whether the symbol table holds an entry for exactly this address.
pub open spec fn has_sym(tab: Seq<(u64, String)>, addr: u64) -> bool {
    exists|i: int| 0 <= i < tab.len() && tab[i].0 == addr
}

/// The first table entry for exactly this address.
pub open spec fn sym_at(tab: Seq<(u64, String)>, addr: u64) -> int {
    choose|i: int|
        0 <= i < tab.len() && tab[i].0 == addr && (forall|j: int|
            0 <= j < i ==> tab[j].0 != addr)
}

/// Looks an exact address up in the symbol table.
fn lookup_sym(tab: &Vec<(u64, String)>, addr: u64) -> (r: Option<&String>)
    ensures
        match r {
            Some(s) => has_sym(tab@, addr) && exists|i: int|
                0 <= i < tab@.len() && tab@[i].0 == addr && s == tab@[i].1,
            None => !has_sym(tab@, addr),
        },
{
    let mut i: usize = 0;
    while i < tab.len()
        invariant
            i <= tab@.len(),
            forall|j: int| 0 <= j < i ==> tab@[j].0 != addr,
        decreases tab@.len() - i,
    {
        if tab[i].0 == addr {
            return Some(&tab[i].1);
        }
        i = i + 1;
    }
    None
}

/// Resolves an address to its symbol: walks downward from the address to
/// the nearest symbol at or below it, stopping at the map floor. Returns
/// the symbol of the greatest covered address not above the queried one,
/// or nothing when the address is outside the covered range.
pub fn addr2sym(tab: &Vec<(u64, String)>, addr: u64) -> (r: Option<String>)
    ensures
        match r {
            Some(s) => exists|i: int|
                #![auto]
                0 <= i < tab@.len() && SYMBOL_FLOOR <= tab@[i].0 <= addr && s@ == tab@[i].1@
                    && (forall|j: int|
                    0 <= j < tab@.len() ==> !(tab@[i].0 < #[trigger] tab@[j].0 <= addr)),
            None => addr <= SYMBOL_FLOOR || (forall|j: int|
                0 <= j < tab@.len() ==> !(SYMBOL_FLOOR <= #[trigger] tab@[j].0 <= addr)),
        },
{
    if addr <= SYMBOL_FLOOR {
        return None;
    }
    let mut at: u64 = addr;
    loop
        invariant
            SYMBOL_FLOOR <= at <= addr,
            forall|j: int| 0 <= j < tab@.len() ==> !(at < #[trigger] tab@[j].0 <= addr),
        decreases at,
    {
        match lookup_sym(tab, at) {
            Some(s) => {
                let out = s.clone();
                proof {
                    let w = choose|i: int| 0 <= i < tab@.len() && tab@[i].0 == at && out
                        == tab@[i].1;
                    assert(SYMBOL_FLOOR <= tab@[w].0 <= addr);
                }
                return Some(out);
            },
            None => {
                if at == SYMBOL_FLOOR {
                    return None;
                }
                at = at - 1;
            },
        }
    }
}

} // verus!
