//! An owned list of strings, as the native driver's enumeration calls return
//! them (antennas, source names, sensor names). The unverified layer fills one
//! from the native handle; everything read from it here is verified.

use vstd::prelude::*;

verus! {

/// A list of strings handed over by a native enumeration call.
pub struct StringVector {
    entries: Vec<String>,
}

impl View for StringVector {
    type V = Seq<Seq<char>>;

    closed spec fn view(&self) -> Seq<Seq<char>> {
        self.entries.deep_view()
    }
}

impl StringVector {
    pub fn new() -> (r: Result<StringVector, &'static str>)
        ensures
            r matches Ok(v) && v@ == Seq::<Seq<char>>::empty(),
    {
        let entries: Vec<String> = Vec::new();
        proof {
            assert(entries.deep_view() =~= Seq::<Seq<char>>::empty());
        }
        Ok(StringVector { entries })
    }

    /// Wraps a list the native layer already collected.
    pub fn from_entries(entries: Vec<String>) -> (r: StringVector)
        ensures
            r@ == entries.deep_view(),
    {
        StringVector { entries }
    }

    /// Appends one string to the list.
    pub fn push_back(&mut self, value: String)
        ensures
            final(self)@ == old(self)@.push(value@),
    {
        let ghost prior = self.entries.deep_view();
        let ghost v = value@;
        self.entries.push(value);
        proof {
            assert(self.entries.deep_view() =~= prior.push(v));
        }
    }

    pub fn len(&self) -> (r: Result<usize, &'static str>)
        ensures
            r matches Ok(n) && n == self@.len(),
    {
        Ok(self.entries.len())
    }

    /// The string at `idx`, or an error past the end of the list.
    pub fn get_at(&self, idx: usize) -> (r: Result<String, &'static str>)
        ensures
            idx < self@.len() ==> (r matches Ok(s) && s@ == self@[idx as int]),
            idx >= self@.len() ==> (r matches Err(m) && m@ == "Unable to index into string vector"@),
    {
        if idx >= self.entries.len() {
            return Err("Unable to index into string vector");
        }
        Ok(self.entries[idx].clone())
    }

    /// The whole list as an owned vector, in order.
    pub fn get_rust_vec(&self) -> (r: Result<Vec<String>, &'static str>)
        ensures
            r matches Ok(v) && v.deep_view() == self@,
    {
        let mut ans: Vec<String> = Vec::new();
        let total = self.len()?;
        let mut idx: usize = 0;
        while idx < total
            invariant
                idx <= total,
                total == self@.len(),
                ans.deep_view() =~= self@.take(idx as int),
            decreases total - idx,
        {
            let ghost prior = ans.deep_view();
            let entry = self.get_at(idx)?;
            let ghost e = entry@;
            ans.push(entry);
            proof {
                assert(ans.deep_view() =~= prior.push(e));
                assert(self@.take(idx as int + 1) =~= self@.take(idx as int).push(
                    self@[idx as int],
                ));
            }
            idx = idx + 1;
        }
        proof {
            assert(self@.take(self@.len() as int) =~= self@);
        }
        Ok(ans)
    }
}

} // verus!
