//! A search for accounts with a pretty address.

use vstd::prelude::*;
use vstd::string::*;

use crate::account::Account;

verus! {

/// The number of accounts that are tried before the search reports its progress.
pub const BATCH_SIZE: u32 = 100;

/// Whether an address starts the way that the search is after.
pub open spec fn is_vanity(address: Seq<char>) -> bool {
    "aleo1haruka"@.is_prefix_of(address)
}

/// The number of accounts tried after `more` were tried behind the first `count`. It starts again
/// from zero behind the largest number.
pub open spec fn count_after(count: u32, more: nat) -> u32 {
    ((count + more) % 0x1_0000_0000) as u32
}

/// The accounts among `drawn` that fit, in order.
pub open spec fn fitting(drawn: Seq<Account>) -> Seq<Account> {
    drawn.filter(|account: Account| is_vanity(account.address@))
}

/// Whether `count` accounts were drawn and `found` are all those among them that fit, in order.
pub open spec fn sifted(drawn: Seq<Account>, count: nat, found: Seq<Account>) -> bool {
    &&& drawn.len() == count
    &&& forall|i: int| 0 <= i < drawn.len() ==> (#[trigger] drawn[i]).wf()
    &&& found == fitting(drawn)
}

/// Whether an address starts the way that the search is after.
pub fn check_vanity(address: &str) -> (vanity: bool)
    ensures
        vanity <==> is_vanity(address@),
        vanity <==> "aleo1haruka"@.is_prefix_of(address@),
{
    starts_with(address, "aleo1haruka")
}

/// Whether `text` starts with `prefix`.
fn starts_with(text: &str, prefix: &str) -> (starts: bool)
    ensures
        starts <==> prefix@.is_prefix_of(text@),
{
    let length: usize = prefix.unicode_len();
    if text.unicode_len() < length {
        return false;
    }
    let mut i: usize = 0;
    while i < length
        invariant
            i <= length,
            length == prefix@.len(),
            length <= text@.len(),
            forall|j: int| 0 <= j < i ==> text@[j] == prefix@[j],
        decreases length - i,
    {
        if text.get_char(i) != prefix.get_char(i) {
            return false;
        }
        i = i + 1;
    }
    proof {
        assert(prefix@ =~= text@.subrange(0, length as int));
    }
    true
}

/// A search that its workers share.
pub struct VanitySearch {
    /// The number of accounts tried.
    pub count: u32,
    /// Whether the search is over.
    pub end: bool,
}

impl VanitySearch {
    /// A search that has not tried anything yet.
    pub fn new() -> (search: VanitySearch)
        ensures
            search == (VanitySearch { count: 0, end: false }),
    {
        VanitySearch { count: 0, end: false }
    }

    /// The search after it has looked at an account with this address.
    pub open spec fn after(self, address: Seq<char>) -> VanitySearch {
        VanitySearch { count: self.count, end: self.end || is_vanity(address) }
    }

    /// Looks at one account. The first one that fits ends the search.
    pub fn consider(&mut self, account: &Account) -> (fits: bool)
        ensures
            fits <==> is_vanity(account.address@),
            *final(self) == old(self).after(account.address@),
            final(self).count == old(self).count,
            final(self).end <==> old(self).end || fits,
    {
        let fits: bool = check_vanity(account.address.as_str());
        if fits {
            self.end = true;
        }
        fits
    }

    /// The search after a worker has done `part` of it.
    pub open spec fn joined(self, part: VanitySearch) -> VanitySearch {
        VanitySearch {
            count: count_after(self.count, part.count as nat),
            end: self.end || part.end,
        }
    }

    /// Looks at accounts that were drawn, counts them and hands out those that fit, in order.
    pub fn sift(&mut self, drawn: Vec<Account>) -> (found: Vec<Account>)
        ensures
            found@ == fitting(drawn@),
            final(self).count == (old(self).count + drawn@.len()) % 0x1_0000_0000,
            found@ == drawn@.filter(
                |account: Account| "aleo1haruka"@.is_prefix_of(account.address@),
            ),
            *final(self) == (VanitySearch {
                count: count_after(old(self).count, drawn@.len()),
                end: old(self).end || found@.len() > 0,
            }),
    {
        let ghost all = drawn@;
        let number: u64 = drawn.len() as u64;
        let mut found: Vec<Account> = Vec::new();
        for account in iter: drawn
            invariant
                iter.seq() == all,
                found@ == fitting(all.take(iter.index() as int)),
                self.count == old(self).count,
                self.end <==> old(self).end || found@.len() > 0,
        {
            proof {
                reveal(Seq::filter);
                let seen = all.take(iter.index() as int + 1);
                assert(seen.drop_last() =~= all.take(iter.index() as int));
                assert(seen.last() == account);
            }
            if self.consider(&account) {
                found.push(account);
            }
        }
        proof {
            assert(all.take(all.len() as int) =~= all);
            let fits = |account: Account| is_vanity(account.address@);
            let starts = |account: Account| "aleo1haruka"@.is_prefix_of(account.address@);
            assert(fits =~= starts);
        }
        self.count = self.count.wrapping_add((number % 0x1_0000_0000) as u32);
        found
    }

    /// Tries one batch of accounts, chosen at random, and hands out those that fit.
    pub fn try_batch(&mut self) -> (found: Vec<Account>)
        ensures
            exists|drawn: Seq<Account>| #[trigger] sifted(drawn, BATCH_SIZE as nat, found@),
            final(self).count == (old(self).count + 100) % 0x1_0000_0000,
            final(self).end <==> old(self).end || found@.len() > 0,
            *final(self) == (VanitySearch {
                count: count_after(old(self).count, BATCH_SIZE as nat),
                end: old(self).end || found@.len() > 0,
            }),
    {
        let mut drawn: Vec<Account> = Vec::new();
        while drawn.len() < BATCH_SIZE as usize
            invariant
                drawn@.len() <= BATCH_SIZE,
                forall|i: int| 0 <= i < drawn@.len() ==> (#[trigger] drawn@[i]).wf(),
            decreases BATCH_SIZE - drawn@.len(),
        {
            drawn.push(Account::generate().unwrap());
        }
        let ghost all = drawn@;
        let found: Vec<Account> = self.sift(drawn);
        proof {
            assert(sifted(all, BATCH_SIZE as nat, found@));
        }
        found
    }

    /// Takes in what a worker has done on its own.
    pub fn merge(&mut self, part: &VanitySearch)
        ensures
            *final(self) == old(self).joined(*part),
            final(self).count == (old(self).count + part.count) % 0x1_0000_0000,
            final(self).end <==> old(self).end || part.end,
    {
        self.count = self.count.wrapping_add(part.count);
        if part.end {
            self.end = true;
        }
    }
}

/// A search after it has looked at accounts with these addresses, in order.
pub open spec fn considered(search: VanitySearch, addresses: Seq<Seq<char>>) -> VanitySearch
    decreases addresses.len(),
{
    if addresses.len() == 0 {
        search
    } else {
        considered(search, addresses.drop_last()).after(addresses.last())
    }
}

/// A search is over exactly when it was over before or one of the accounts that it has looked at
/// since fits.
pub proof fn law_search_ends_with_a_fit(search: VanitySearch, addresses: Seq<Seq<char>>)
    ensures
        considered(search, addresses).end <==> search.end || exists|i: int|
            0 <= i < addresses.len() && is_vanity(#[trigger] addresses[i]),
    decreases addresses.len(),
{
    if addresses.len() > 0 {
        let before = addresses.drop_last();
        law_search_ends_with_a_fit(search, before);
        if considered(search, before).end {
            if !search.end {
                let i = choose|i: int| 0 <= i < before.len() && is_vanity(#[trigger] before[i]);
                assert(addresses[i] == before[i]);
            }
        } else if is_vanity(addresses.last()) {
            assert(is_vanity(addresses[addresses.len() - 1]));
        } else {
            assert forall|i: int| 0 <= i < addresses.len() implies !is_vanity(
                #[trigger] addresses[i],
            ) by {
                if i < before.len() {
                    assert(addresses[i] == before[i]);
                }
            }
        }
    }
}

/// A batch hands out only accounts that are whole and fit, and no more of them than it tries. An
/// account that was tried and fits is handed out.
pub proof fn law_batch_hands_out_every_fit(drawn: Seq<Account>, count: nat, found: Seq<Account>)
    requires
        sifted(drawn, count, found),
    ensures
        found.len() <= count,
        forall|i: int|
            0 <= i < found.len() ==> (#[trigger] found[i]).wf() && is_vanity(found[i].address@),
        forall|i: int|
            0 <= i < drawn.len() && is_vanity((#[trigger] drawn[i]).address@) ==> found.contains(
                drawn[i],
            ),
{
    let fits = |account: Account| is_vanity(account.address@);
    drawn.lemma_filter_len(fits);
    assert forall|i: int| 0 <= i < found.len() implies (#[trigger] found[i]).wf() && is_vanity(
        found[i].address@,
    ) by {
        drawn.lemma_filter_pred(fits, i);
        drawn.lemma_filter_contains_rev(fits, found[i]);
        let j = choose|j: int| 0 <= j < drawn.len() && drawn[j] == found[i];
        assert(drawn[j].wf());
    }
    assert forall|i: int|
        0 <= i < drawn.len() && is_vanity((#[trigger] drawn[i]).address@) implies found.contains(
        drawn[i],
    ) by {
        drawn.lemma_filter_contains(fits, i);
    }
}

/// A search after its workers have joined these parts to it, in order.
pub open spec fn all_joined(search: VanitySearch, parts: Seq<VanitySearch>) -> VanitySearch
    decreases parts.len(),
{
    if parts.len() == 0 {
        search
    } else {
        all_joined(search, parts.drop_last()).joined(parts.last())
    }
}

/// A shared search counts a whole batch for each batch that a worker has tried, as far as the
/// count goes, and is over exactly when it was over before or one of the batches held a fit.
pub proof fn law_whole_batches_are_counted(search: VanitySearch, parts: Seq<VanitySearch>)
    requires
        forall|i: int| 0 <= i < parts.len() ==> (#[trigger] parts[i]).count == BATCH_SIZE,
    ensures
        all_joined(search, parts).count == count_after(search.count, BATCH_SIZE as nat * parts.len()),
        all_joined(search, parts).end <==> search.end || exists|i: int|
            0 <= i < parts.len() && (#[trigger] parts[i]).end,
    decreases parts.len(),
{
    if parts.len() > 0 {
        let before = parts.drop_last();
        assert forall|i: int| 0 <= i < before.len() implies (#[trigger] before[i]).count
            == BATCH_SIZE by {
            assert(parts[i].count == BATCH_SIZE);
        }
        law_whole_batches_are_counted(search, before);
        let last = parts[parts.len() - 1];
        assert(last.count == BATCH_SIZE);
        assert(BATCH_SIZE as nat * parts.len() == BATCH_SIZE as nat * before.len() + BATCH_SIZE);
        if all_joined(search, before).end {
            if !search.end {
                let i = choose|i: int| 0 <= i < before.len() && (#[trigger] before[i]).end;
                assert(parts[i].end);
            }
        } else if !last.end {
            assert forall|i: int| 0 <= i < parts.len() implies !(#[trigger] parts[i]).end by {
                if i < before.len() {
                    assert(!before[i].end);
                }
            }
        }
    }
}

/// An address fits exactly when it is the wanted beginning with anything behind it.
pub proof fn law_fitting_addresses(address: Seq<char>, rest: Seq<char>)
    ensures
        is_vanity("aleo1haruka"@ + rest),
        is_vanity(address) ==> address == "aleo1haruka"@ + address.skip("aleo1haruka"@.len() as int),
        address.len() < "aleo1haruka"@.len() ==> !is_vanity(address),
{
    let wanted = "aleo1haruka"@;
    assert((wanted + rest).subrange(0, wanted.len() as int) =~= wanted);
    if is_vanity(address) {
        assert(address =~= wanted + address.skip(wanted.len() as int));
    }
}

/// Sifting goes through the accounts in order: from none come none, and one more account comes out
/// last exactly when it fits.
pub proof fn law_sifting_is_stepwise(drawn: Seq<Account>, next: Account)
    ensures
        fitting(seq![]) == Seq::<Account>::empty(),
        is_vanity(next.address@) ==> fitting(drawn.push(next)) == fitting(drawn).push(next),
        !is_vanity(next.address@) ==> fitting(drawn.push(next)) == fitting(drawn),
{
    reveal(Seq::filter);
    assert(drawn.push(next).drop_last() =~= drawn);
}

/// A batch that was sifted has as many accounts as were asked for, all of them whole, and hands out
/// what sifting them brings.
pub proof fn law_batches_are_whole(drawn: Seq<Account>, count: nat, found: Seq<Account>, i: int)
    requires
        sifted(drawn, count, found),
    ensures
        drawn.len() == count,
        0 <= i < count ==> drawn[i].wf(),
        found == fitting(drawn),
{
}

/// Counting goes on from where it was, as far as thirty-two bits go.
pub proof fn law_accounts_are_counted(count: u32, more: nat)
    ensures
        (count + more - count_after(count, more)) % 0x1_0000_0000 == 0,
        count + more <= u32::MAX ==> count_after(count, more) == count + more,
{
}

} // verus!
