//! The heterogeneous shape: a fixed-arity tuple of lists whose element types
//! may all differ; the produced combination is a matching tuple of one
//! element from each list. One implementation per arity, written out in
//! full.

use vstd::prelude::*;

use crate::list_wrapper::{copy_list, ListWrapper};
use crate::mixed_radix::to_ints;

verus! {

impl<A: Copy> ListWrapper<(A,)> for (Vec<A>,) {
    type Model = (A,);

    open spec fn wf(&self) -> bool {
        self.0@.len() >= 1
    }

    open spec fn spec_lens(&self) -> Seq<int> {
        seq![self.0@.len() as int]
    }

    open spec fn combo_at(&self, cursors: Seq<int>) -> (A,) {
        (self.0@[cursors[0]],)
    }

    open spec fn item_model(item: (A,)) -> (A,) {
        item
    }

    open spec fn valid_buffer(&self, item: (A,)) -> bool {
        true
    }

    proof fn lemma_wf_lens(&self) {
    }

    fn wrapper_len(&self) -> (n: usize) {
        1
    }

    fn lens(&self) -> (r: Vec<usize>) {
        let mut r: Vec<usize> = Vec::new();
        r.push(self.0.len());
        proof {
            assert(to_ints(r@) =~= self.spec_lens());
        }
        r
    }

    fn next_item(&self, indexes: &Vec<usize>) -> (r: (A,)) {
        proof {
            assert(to_ints(indexes@)[0] < self.spec_lens()[0]);
        }
        (self.0[indexes[0]],)
    }

    fn next_with_buffer(&self, indexes: &Vec<usize>, buffer: &mut (A,)) {
        proof {
            assert(to_ints(indexes@)[0] < self.spec_lens()[0]);
        }
        buffer.0 = self.0[indexes[0]];
    }

    fn duplicate(&self) -> (r: Self) {
        (copy_list(&self.0),)
    }
}

impl<A: Copy, B: Copy> ListWrapper<(A, B)> for (Vec<A>, Vec<B>) {
    type Model = (A, B);

    open spec fn wf(&self) -> bool {
        self.0@.len() >= 1 && self.1@.len() >= 1
    }

    open spec fn spec_lens(&self) -> Seq<int> {
        seq![self.0@.len() as int, self.1@.len() as int]
    }

    open spec fn combo_at(&self, cursors: Seq<int>) -> (A, B) {
        (self.0@[cursors[0]], self.1@[cursors[1]])
    }

    open spec fn item_model(item: (A, B)) -> (A, B) {
        item
    }

    open spec fn valid_buffer(&self, item: (A, B)) -> bool {
        true
    }

    proof fn lemma_wf_lens(&self) {
    }

    fn wrapper_len(&self) -> (n: usize) {
        2
    }

    fn lens(&self) -> (r: Vec<usize>) {
        let mut r: Vec<usize> = Vec::new();
        r.push(self.0.len());
        r.push(self.1.len());
        proof {
            assert(to_ints(r@) =~= self.spec_lens());
        }
        r
    }

    fn next_item(&self, indexes: &Vec<usize>) -> (r: (A, B)) {
        proof {
            assert(to_ints(indexes@)[0] < self.spec_lens()[0]);
            assert(to_ints(indexes@)[1] < self.spec_lens()[1]);
        }
        (self.0[indexes[0]], self.1[indexes[1]])
    }

    fn next_with_buffer(&self, indexes: &Vec<usize>, buffer: &mut (A, B)) {
        proof {
            assert(to_ints(indexes@)[0] < self.spec_lens()[0]);
            assert(to_ints(indexes@)[1] < self.spec_lens()[1]);
        }
        buffer.0 = self.0[indexes[0]];
        buffer.1 = self.1[indexes[1]];
    }

    fn duplicate(&self) -> (r: Self) {
        (copy_list(&self.0), copy_list(&self.1))
    }
}

impl<A: Copy, B: Copy, C: Copy> ListWrapper<(A, B, C)> for (Vec<A>, Vec<B>, Vec<C>) {
    type Model = (A, B, C);

    open spec fn wf(&self) -> bool {
        self.0@.len() >= 1 && self.1@.len() >= 1 && self.2@.len() >= 1
    }

    open spec fn spec_lens(&self) -> Seq<int> {
        seq![self.0@.len() as int, self.1@.len() as int, self.2@.len() as int]
    }

    open spec fn combo_at(&self, cursors: Seq<int>) -> (A, B, C) {
        (self.0@[cursors[0]], self.1@[cursors[1]], self.2@[cursors[2]])
    }

    open spec fn item_model(item: (A, B, C)) -> (A, B, C) {
        item
    }

    open spec fn valid_buffer(&self, item: (A, B, C)) -> bool {
        true
    }

    proof fn lemma_wf_lens(&self) {
    }

    fn wrapper_len(&self) -> (n: usize) {
        3
    }

    fn lens(&self) -> (r: Vec<usize>) {
        let mut r: Vec<usize> = Vec::new();
        r.push(self.0.len());
        r.push(self.1.len());
        r.push(self.2.len());
        proof {
            assert(to_ints(r@) =~= self.spec_lens());
        }
        r
    }

    fn next_item(&self, indexes: &Vec<usize>) -> (r: (A, B, C)) {
        proof {
            assert(to_ints(indexes@)[0] < self.spec_lens()[0]);
            assert(to_ints(indexes@)[1] < self.spec_lens()[1]);
            assert(to_ints(indexes@)[2] < self.spec_lens()[2]);
        }
        (self.0[indexes[0]], self.1[indexes[1]], self.2[indexes[2]])
    }

    fn next_with_buffer(&self, indexes: &Vec<usize>, buffer: &mut (A, B, C)) {
        proof {
            assert(to_ints(indexes@)[0] < self.spec_lens()[0]);
            assert(to_ints(indexes@)[1] < self.spec_lens()[1]);
            assert(to_ints(indexes@)[2] < self.spec_lens()[2]);
        }
        buffer.0 = self.0[indexes[0]];
        buffer.1 = self.1[indexes[1]];
        buffer.2 = self.2[indexes[2]];
    }

    fn duplicate(&self) -> (r: Self) {
        (copy_list(&self.0), copy_list(&self.1), copy_list(&self.2))
    }
}

impl<A: Copy, B: Copy, C: Copy, D: Copy> ListWrapper<(A, B, C, D)> for (Vec<A>, Vec<B>, Vec<C>, Vec<D>) {
    type Model = (A, B, C, D);

    open spec fn wf(&self) -> bool {
        self.0@.len() >= 1 && self.1@.len() >= 1 && self.2@.len() >= 1 && self.3@.len() >= 1
    }

    open spec fn spec_lens(&self) -> Seq<int> {
        seq![self.0@.len() as int, self.1@.len() as int, self.2@.len() as int, self.3@.len() as int]
    }

    open spec fn combo_at(&self, cursors: Seq<int>) -> (A, B, C, D) {
        (self.0@[cursors[0]], self.1@[cursors[1]], self.2@[cursors[2]], self.3@[cursors[3]])
    }

    open spec fn item_model(item: (A, B, C, D)) -> (A, B, C, D) {
        item
    }

    open spec fn valid_buffer(&self, item: (A, B, C, D)) -> bool {
        true
    }

    proof fn lemma_wf_lens(&self) {
    }

    fn wrapper_len(&self) -> (n: usize) {
        4
    }

    fn lens(&self) -> (r: Vec<usize>) {
        let mut r: Vec<usize> = Vec::new();
        r.push(self.0.len());
        r.push(self.1.len());
        r.push(self.2.len());
        r.push(self.3.len());
        proof {
            assert(to_ints(r@) =~= self.spec_lens());
        }
        r
    }

    fn next_item(&self, indexes: &Vec<usize>) -> (r: (A, B, C, D)) {
        proof {
            assert(to_ints(indexes@)[0] < self.spec_lens()[0]);
            assert(to_ints(indexes@)[1] < self.spec_lens()[1]);
            assert(to_ints(indexes@)[2] < self.spec_lens()[2]);
            assert(to_ints(indexes@)[3] < self.spec_lens()[3]);
        }
        (self.0[indexes[0]], self.1[indexes[1]], self.2[indexes[2]], self.3[indexes[3]])
    }

    fn next_with_buffer(&self, indexes: &Vec<usize>, buffer: &mut (A, B, C, D)) {
        proof {
            assert(to_ints(indexes@)[0] < self.spec_lens()[0]);
            assert(to_ints(indexes@)[1] < self.spec_lens()[1]);
            assert(to_ints(indexes@)[2] < self.spec_lens()[2]);
            assert(to_ints(indexes@)[3] < self.spec_lens()[3]);
        }
        buffer.0 = self.0[indexes[0]];
        buffer.1 = self.1[indexes[1]];
        buffer.2 = self.2[indexes[2]];
        buffer.3 = self.3[indexes[3]];
    }

    fn duplicate(&self) -> (r: Self) {
        (copy_list(&self.0), copy_list(&self.1), copy_list(&self.2), copy_list(&self.3))
    }
}

impl<A: Copy, B: Copy, C: Copy, D: Copy, E: Copy> ListWrapper<(A, B, C, D, E)> for (Vec<A>, Vec<B>, Vec<C>, Vec<D>, Vec<E>) {
    type Model = (A, B, C, D, E);

    open spec fn wf(&self) -> bool {
        self.0@.len() >= 1 && self.1@.len() >= 1 && self.2@.len() >= 1 && self.3@.len() >= 1 && self.4@.len() >= 1
    }

    open spec fn spec_lens(&self) -> Seq<int> {
        seq![self.0@.len() as int, self.1@.len() as int, self.2@.len() as int, self.3@.len() as int, self.4@.len() as int]
    }

    open spec fn combo_at(&self, cursors: Seq<int>) -> (A, B, C, D, E) {
        (self.0@[cursors[0]], self.1@[cursors[1]], self.2@[cursors[2]], self.3@[cursors[3]], self.4@[cursors[4]])
    }

    open spec fn item_model(item: (A, B, C, D, E)) -> (A, B, C, D, E) {
        item
    }

    open spec fn valid_buffer(&self, item: (A, B, C, D, E)) -> bool {
        true
    }

    proof fn lemma_wf_lens(&self) {
    }

    fn wrapper_len(&self) -> (n: usize) {
        5
    }

    fn lens(&self) -> (r: Vec<usize>) {
        let mut r: Vec<usize> = Vec::new();
        r.push(self.0.len());
        r.push(self.1.len());
        r.push(self.2.len());
        r.push(self.3.len());
        r.push(self.4.len());
        proof {
            assert(to_ints(r@) =~= self.spec_lens());
        }
        r
    }

    fn next_item(&self, indexes: &Vec<usize>) -> (r: (A, B, C, D, E)) {
        proof {
            assert(to_ints(indexes@)[0] < self.spec_lens()[0]);
            assert(to_ints(indexes@)[1] < self.spec_lens()[1]);
            assert(to_ints(indexes@)[2] < self.spec_lens()[2]);
            assert(to_ints(indexes@)[3] < self.spec_lens()[3]);
            assert(to_ints(indexes@)[4] < self.spec_lens()[4]);
        }
        (self.0[indexes[0]], self.1[indexes[1]], self.2[indexes[2]], self.3[indexes[3]], self.4[indexes[4]])
    }

    fn next_with_buffer(&self, indexes: &Vec<usize>, buffer: &mut (A, B, C, D, E)) {
        proof {
            assert(to_ints(indexes@)[0] < self.spec_lens()[0]);
            assert(to_ints(indexes@)[1] < self.spec_lens()[1]);
            assert(to_ints(indexes@)[2] < self.spec_lens()[2]);
            assert(to_ints(indexes@)[3] < self.spec_lens()[3]);
            assert(to_ints(indexes@)[4] < self.spec_lens()[4]);
        }
        buffer.0 = self.0[indexes[0]];
        buffer.1 = self.1[indexes[1]];
        buffer.2 = self.2[indexes[2]];
        buffer.3 = self.3[indexes[3]];
        buffer.4 = self.4[indexes[4]];
    }

    fn duplicate(&self) -> (r: Self) {
        (copy_list(&self.0), copy_list(&self.1), copy_list(&self.2), copy_list(&self.3), copy_list(&self.4))
    }
}

impl<A: Copy, B: Copy, C: Copy, D: Copy, E: Copy, F: Copy> ListWrapper<(A, B, C, D, E, F)> for (Vec<A>, Vec<B>, Vec<C>, Vec<D>, Vec<E>, Vec<F>) {
    type Model = (A, B, C, D, E, F);

    open spec fn wf(&self) -> bool {
        self.0@.len() >= 1 && self.1@.len() >= 1 && self.2@.len() >= 1 && self.3@.len() >= 1 && self.4@.len() >= 1 && self.5@.len() >= 1
    }

    open spec fn spec_lens(&self) -> Seq<int> {
        seq![self.0@.len() as int, self.1@.len() as int, self.2@.len() as int, self.3@.len() as int, self.4@.len() as int, self.5@.len() as int]
    }

    open spec fn combo_at(&self, cursors: Seq<int>) -> (A, B, C, D, E, F) {
        (self.0@[cursors[0]], self.1@[cursors[1]], self.2@[cursors[2]], self.3@[cursors[3]], self.4@[cursors[4]], self.5@[cursors[5]])
    }

    open spec fn item_model(item: (A, B, C, D, E, F)) -> (A, B, C, D, E, F) {
        item
    }

    open spec fn valid_buffer(&self, item: (A, B, C, D, E, F)) -> bool {
        true
    }

    proof fn lemma_wf_lens(&self) {
    }

    fn wrapper_len(&self) -> (n: usize) {
        6
    }

    fn lens(&self) -> (r: Vec<usize>) {
        let mut r: Vec<usize> = Vec::new();
        r.push(self.0.len());
        r.push(self.1.len());
        r.push(self.2.len());
        r.push(self.3.len());
        r.push(self.4.len());
        r.push(self.5.len());
        proof {
            assert(to_ints(r@) =~= self.spec_lens());
        }
        r
    }

    fn next_item(&self, indexes: &Vec<usize>) -> (r: (A, B, C, D, E, F)) {
        proof {
            assert(to_ints(indexes@)[0] < self.spec_lens()[0]);
            assert(to_ints(indexes@)[1] < self.spec_lens()[1]);
            assert(to_ints(indexes@)[2] < self.spec_lens()[2]);
            assert(to_ints(indexes@)[3] < self.spec_lens()[3]);
            assert(to_ints(indexes@)[4] < self.spec_lens()[4]);
            assert(to_ints(indexes@)[5] < self.spec_lens()[5]);
        }
        (self.0[indexes[0]], self.1[indexes[1]], self.2[indexes[2]], self.3[indexes[3]], self.4[indexes[4]], self.5[indexes[5]])
    }

    fn next_with_buffer(&self, indexes: &Vec<usize>, buffer: &mut (A, B, C, D, E, F)) {
        proof {
            assert(to_ints(indexes@)[0] < self.spec_lens()[0]);
            assert(to_ints(indexes@)[1] < self.spec_lens()[1]);
            assert(to_ints(indexes@)[2] < self.spec_lens()[2]);
            assert(to_ints(indexes@)[3] < self.spec_lens()[3]);
            assert(to_ints(indexes@)[4] < self.spec_lens()[4]);
            assert(to_ints(indexes@)[5] < self.spec_lens()[5]);
        }
        buffer.0 = self.0[indexes[0]];
        buffer.1 = self.1[indexes[1]];
        buffer.2 = self.2[indexes[2]];
        buffer.3 = self.3[indexes[3]];
        buffer.4 = self.4[indexes[4]];
        buffer.5 = self.5[indexes[5]];
    }

    fn duplicate(&self) -> (r: Self) {
        (copy_list(&self.0), copy_list(&self.1), copy_list(&self.2), copy_list(&self.3), copy_list(&self.4), copy_list(&self.5))
    }
}

impl<A: Copy, B: Copy, C: Copy, D: Copy, E: Copy, F: Copy, G: Copy> ListWrapper<(A, B, C, D, E, F, G)> for (Vec<A>, Vec<B>, Vec<C>, Vec<D>, Vec<E>, Vec<F>, Vec<G>) {
    type Model = (A, B, C, D, E, F, G);

    open spec fn wf(&self) -> bool {
        self.0@.len() >= 1 && self.1@.len() >= 1 && self.2@.len() >= 1 && self.3@.len() >= 1 && self.4@.len() >= 1 && self.5@.len() >= 1 && self.6@.len() >= 1
    }

    open spec fn spec_lens(&self) -> Seq<int> {
        seq![self.0@.len() as int, self.1@.len() as int, self.2@.len() as int, self.3@.len() as int, self.4@.len() as int, self.5@.len() as int, self.6@.len() as int]
    }

    open spec fn combo_at(&self, cursors: Seq<int>) -> (A, B, C, D, E, F, G) {
        (self.0@[cursors[0]], self.1@[cursors[1]], self.2@[cursors[2]], self.3@[cursors[3]], self.4@[cursors[4]], self.5@[cursors[5]], self.6@[cursors[6]])
    }

    open spec fn item_model(item: (A, B, C, D, E, F, G)) -> (A, B, C, D, E, F, G) {
        item
    }

    open spec fn valid_buffer(&self, item: (A, B, C, D, E, F, G)) -> bool {
        true
    }

    proof fn lemma_wf_lens(&self) {
    }

    fn wrapper_len(&self) -> (n: usize) {
        7
    }

    fn lens(&self) -> (r: Vec<usize>) {
        let mut r: Vec<usize> = Vec::new();
        r.push(self.0.len());
        r.push(self.1.len());
        r.push(self.2.len());
        r.push(self.3.len());
        r.push(self.4.len());
        r.push(self.5.len());
        r.push(self.6.len());
        proof {
            assert(to_ints(r@) =~= self.spec_lens());
        }
        r
    }

    fn next_item(&self, indexes: &Vec<usize>) -> (r: (A, B, C, D, E, F, G)) {
        proof {
            assert(to_ints(indexes@)[0] < self.spec_lens()[0]);
            assert(to_ints(indexes@)[1] < self.spec_lens()[1]);
            assert(to_ints(indexes@)[2] < self.spec_lens()[2]);
            assert(to_ints(indexes@)[3] < self.spec_lens()[3]);
            assert(to_ints(indexes@)[4] < self.spec_lens()[4]);
            assert(to_ints(indexes@)[5] < self.spec_lens()[5]);
            assert(to_ints(indexes@)[6] < self.spec_lens()[6]);
        }
        (self.0[indexes[0]], self.1[indexes[1]], self.2[indexes[2]], self.3[indexes[3]], self.4[indexes[4]], self.5[indexes[5]], self.6[indexes[6]])
    }

    fn next_with_buffer(&self, indexes: &Vec<usize>, buffer: &mut (A, B, C, D, E, F, G)) {
        proof {
            assert(to_ints(indexes@)[0] < self.spec_lens()[0]);
            assert(to_ints(indexes@)[1] < self.spec_lens()[1]);
            assert(to_ints(indexes@)[2] < self.spec_lens()[2]);
            assert(to_ints(indexes@)[3] < self.spec_lens()[3]);
            assert(to_ints(indexes@)[4] < self.spec_lens()[4]);
            assert(to_ints(indexes@)[5] < self.spec_lens()[5]);
            assert(to_ints(indexes@)[6] < self.spec_lens()[6]);
        }
        buffer.0 = self.0[indexes[0]];
        buffer.1 = self.1[indexes[1]];
        buffer.2 = self.2[indexes[2]];
        buffer.3 = self.3[indexes[3]];
        buffer.4 = self.4[indexes[4]];
        buffer.5 = self.5[indexes[5]];
        buffer.6 = self.6[indexes[6]];
    }

    fn duplicate(&self) -> (r: Self) {
        (copy_list(&self.0), copy_list(&self.1), copy_list(&self.2), copy_list(&self.3), copy_list(&self.4), copy_list(&self.5), copy_list(&self.6))
    }
}

impl<A: Copy, B: Copy, C: Copy, D: Copy, E: Copy, F: Copy, G: Copy, H: Copy> ListWrapper<(A, B, C, D, E, F, G, H)> for (Vec<A>, Vec<B>, Vec<C>, Vec<D>, Vec<E>, Vec<F>, Vec<G>, Vec<H>) {
    type Model = (A, B, C, D, E, F, G, H);

    open spec fn wf(&self) -> bool {
        self.0@.len() >= 1 && self.1@.len() >= 1 && self.2@.len() >= 1 && self.3@.len() >= 1 && self.4@.len() >= 1 && self.5@.len() >= 1 && self.6@.len() >= 1 && self.7@.len() >= 1
    }

    open spec fn spec_lens(&self) -> Seq<int> {
        seq![self.0@.len() as int, self.1@.len() as int, self.2@.len() as int, self.3@.len() as int, self.4@.len() as int, self.5@.len() as int, self.6@.len() as int, self.7@.len() as int]
    }

    open spec fn combo_at(&self, cursors: Seq<int>) -> (A, B, C, D, E, F, G, H) {
        (self.0@[cursors[0]], self.1@[cursors[1]], self.2@[cursors[2]], self.3@[cursors[3]], self.4@[cursors[4]], self.5@[cursors[5]], self.6@[cursors[6]], self.7@[cursors[7]])
    }

    open spec fn item_model(item: (A, B, C, D, E, F, G, H)) -> (A, B, C, D, E, F, G, H) {
        item
    }

    open spec fn valid_buffer(&self, item: (A, B, C, D, E, F, G, H)) -> bool {
        true
    }

    proof fn lemma_wf_lens(&self) {
    }

    fn wrapper_len(&self) -> (n: usize) {
        8
    }

    fn lens(&self) -> (r: Vec<usize>) {
        let mut r: Vec<usize> = Vec::new();
        r.push(self.0.len());
        r.push(self.1.len());
        r.push(self.2.len());
        r.push(self.3.len());
        r.push(self.4.len());
        r.push(self.5.len());
        r.push(self.6.len());
        r.push(self.7.len());
        proof {
            assert(to_ints(r@) =~= self.spec_lens());
        }
        r
    }

    fn next_item(&self, indexes: &Vec<usize>) -> (r: (A, B, C, D, E, F, G, H)) {
        proof {
            assert(to_ints(indexes@)[0] < self.spec_lens()[0]);
            assert(to_ints(indexes@)[1] < self.spec_lens()[1]);
            assert(to_ints(indexes@)[2] < self.spec_lens()[2]);
            assert(to_ints(indexes@)[3] < self.spec_lens()[3]);
            assert(to_ints(indexes@)[4] < self.spec_lens()[4]);
            assert(to_ints(indexes@)[5] < self.spec_lens()[5]);
            assert(to_ints(indexes@)[6] < self.spec_lens()[6]);
            assert(to_ints(indexes@)[7] < self.spec_lens()[7]);
        }
        (self.0[indexes[0]], self.1[indexes[1]], self.2[indexes[2]], self.3[indexes[3]], self.4[indexes[4]], self.5[indexes[5]], self.6[indexes[6]], self.7[indexes[7]])
    }

    fn next_with_buffer(&self, indexes: &Vec<usize>, buffer: &mut (A, B, C, D, E, F, G, H)) {
        proof {
            assert(to_ints(indexes@)[0] < self.spec_lens()[0]);
            assert(to_ints(indexes@)[1] < self.spec_lens()[1]);
            assert(to_ints(indexes@)[2] < self.spec_lens()[2]);
            assert(to_ints(indexes@)[3] < self.spec_lens()[3]);
            assert(to_ints(indexes@)[4] < self.spec_lens()[4]);
            assert(to_ints(indexes@)[5] < self.spec_lens()[5]);
            assert(to_ints(indexes@)[6] < self.spec_lens()[6]);
            assert(to_ints(indexes@)[7] < self.spec_lens()[7]);
        }
        buffer.0 = self.0[indexes[0]];
        buffer.1 = self.1[indexes[1]];
        buffer.2 = self.2[indexes[2]];
        buffer.3 = self.3[indexes[3]];
        buffer.4 = self.4[indexes[4]];
        buffer.5 = self.5[indexes[5]];
        buffer.6 = self.6[indexes[6]];
        buffer.7 = self.7[indexes[7]];
    }

    fn duplicate(&self) -> (r: Self) {
        (copy_list(&self.0), copy_list(&self.1), copy_list(&self.2), copy_list(&self.3), copy_list(&self.4), copy_list(&self.5), copy_list(&self.6), copy_list(&self.7))
    }
}

impl<A: Copy, B: Copy, C: Copy, D: Copy, E: Copy, F: Copy, G: Copy, H: Copy, I: Copy> ListWrapper<(A, B, C, D, E, F, G, H, I)> for (Vec<A>, Vec<B>, Vec<C>, Vec<D>, Vec<E>, Vec<F>, Vec<G>, Vec<H>, Vec<I>) {
    type Model = (A, B, C, D, E, F, G, H, I);

    open spec fn wf(&self) -> bool {
        self.0@.len() >= 1 && self.1@.len() >= 1 && self.2@.len() >= 1 && self.3@.len() >= 1 && self.4@.len() >= 1 && self.5@.len() >= 1 && self.6@.len() >= 1 && self.7@.len() >= 1 && self.8@.len() >= 1
    }

    open spec fn spec_lens(&self) -> Seq<int> {
        seq![self.0@.len() as int, self.1@.len() as int, self.2@.len() as int, self.3@.len() as int, self.4@.len() as int, self.5@.len() as int, self.6@.len() as int, self.7@.len() as int, self.8@.len() as int]
    }

    open spec fn combo_at(&self, cursors: Seq<int>) -> (A, B, C, D, E, F, G, H, I) {
        (self.0@[cursors[0]], self.1@[cursors[1]], self.2@[cursors[2]], self.3@[cursors[3]], self.4@[cursors[4]], self.5@[cursors[5]], self.6@[cursors[6]], self.7@[cursors[7]], self.8@[cursors[8]])
    }

    open spec fn item_model(item: (A, B, C, D, E, F, G, H, I)) -> (A, B, C, D, E, F, G, H, I) {
        item
    }

    open spec fn valid_buffer(&self, item: (A, B, C, D, E, F, G, H, I)) -> bool {
        true
    }

    proof fn lemma_wf_lens(&self) {
    }

    fn wrapper_len(&self) -> (n: usize) {
        9
    }

    fn lens(&self) -> (r: Vec<usize>) {
        let mut r: Vec<usize> = Vec::new();
        r.push(self.0.len());
        r.push(self.1.len());
        r.push(self.2.len());
        r.push(self.3.len());
        r.push(self.4.len());
        r.push(self.5.len());
        r.push(self.6.len());
        r.push(self.7.len());
        r.push(self.8.len());
        proof {
            assert(to_ints(r@) =~= self.spec_lens());
        }
        r
    }

    fn next_item(&self, indexes: &Vec<usize>) -> (r: (A, B, C, D, E, F, G, H, I)) {
        proof {
            assert(to_ints(indexes@)[0] < self.spec_lens()[0]);
            assert(to_ints(indexes@)[1] < self.spec_lens()[1]);
            assert(to_ints(indexes@)[2] < self.spec_lens()[2]);
            assert(to_ints(indexes@)[3] < self.spec_lens()[3]);
            assert(to_ints(indexes@)[4] < self.spec_lens()[4]);
            assert(to_ints(indexes@)[5] < self.spec_lens()[5]);
            assert(to_ints(indexes@)[6] < self.spec_lens()[6]);
            assert(to_ints(indexes@)[7] < self.spec_lens()[7]);
            assert(to_ints(indexes@)[8] < self.spec_lens()[8]);
        }
        (self.0[indexes[0]], self.1[indexes[1]], self.2[indexes[2]], self.3[indexes[3]], self.4[indexes[4]], self.5[indexes[5]], self.6[indexes[6]], self.7[indexes[7]], self.8[indexes[8]])
    }

    fn next_with_buffer(&self, indexes: &Vec<usize>, buffer: &mut (A, B, C, D, E, F, G, H, I)) {
        proof {
            assert(to_ints(indexes@)[0] < self.spec_lens()[0]);
            assert(to_ints(indexes@)[1] < self.spec_lens()[1]);
            assert(to_ints(indexes@)[2] < self.spec_lens()[2]);
            assert(to_ints(indexes@)[3] < self.spec_lens()[3]);
            assert(to_ints(indexes@)[4] < self.spec_lens()[4]);
            assert(to_ints(indexes@)[5] < self.spec_lens()[5]);
            assert(to_ints(indexes@)[6] < self.spec_lens()[6]);
            assert(to_ints(indexes@)[7] < self.spec_lens()[7]);
            assert(to_ints(indexes@)[8] < self.spec_lens()[8]);
        }
        buffer.0 = self.0[indexes[0]];
        buffer.1 = self.1[indexes[1]];
        buffer.2 = self.2[indexes[2]];
        buffer.3 = self.3[indexes[3]];
        buffer.4 = self.4[indexes[4]];
        buffer.5 = self.5[indexes[5]];
        buffer.6 = self.6[indexes[6]];
        buffer.7 = self.7[indexes[7]];
        buffer.8 = self.8[indexes[8]];
    }

    fn duplicate(&self) -> (r: Self) {
        (copy_list(&self.0), copy_list(&self.1), copy_list(&self.2), copy_list(&self.3), copy_list(&self.4), copy_list(&self.5), copy_list(&self.6), copy_list(&self.7), copy_list(&self.8))
    }
}

impl<A: Copy, B: Copy, C: Copy, D: Copy, E: Copy, F: Copy, G: Copy, H: Copy, I: Copy, J: Copy> ListWrapper<(A, B, C, D, E, F, G, H, I, J)> for (Vec<A>, Vec<B>, Vec<C>, Vec<D>, Vec<E>, Vec<F>, Vec<G>, Vec<H>, Vec<I>, Vec<J>) {
    type Model = (A, B, C, D, E, F, G, H, I, J);

    open spec fn wf(&self) -> bool {
        self.0@.len() >= 1 && self.1@.len() >= 1 && self.2@.len() >= 1 && self.3@.len() >= 1 && self.4@.len() >= 1 && self.5@.len() >= 1 && self.6@.len() >= 1 && self.7@.len() >= 1 && self.8@.len() >= 1 && self.9@.len() >= 1
    }

    open spec fn spec_lens(&self) -> Seq<int> {
        seq![self.0@.len() as int, self.1@.len() as int, self.2@.len() as int, self.3@.len() as int, self.4@.len() as int, self.5@.len() as int, self.6@.len() as int, self.7@.len() as int, self.8@.len() as int, self.9@.len() as int]
    }

    open spec fn combo_at(&self, cursors: Seq<int>) -> (A, B, C, D, E, F, G, H, I, J) {
        (self.0@[cursors[0]], self.1@[cursors[1]], self.2@[cursors[2]], self.3@[cursors[3]], self.4@[cursors[4]], self.5@[cursors[5]], self.6@[cursors[6]], self.7@[cursors[7]], self.8@[cursors[8]], self.9@[cursors[9]])
    }

    open spec fn item_model(item: (A, B, C, D, E, F, G, H, I, J)) -> (A, B, C, D, E, F, G, H, I, J) {
        item
    }

    open spec fn valid_buffer(&self, item: (A, B, C, D, E, F, G, H, I, J)) -> bool {
        true
    }

    proof fn lemma_wf_lens(&self) {
    }

    fn wrapper_len(&self) -> (n: usize) {
        10
    }

    fn lens(&self) -> (r: Vec<usize>) {
        let mut r: Vec<usize> = Vec::new();
        r.push(self.0.len());
        r.push(self.1.len());
        r.push(self.2.len());
        r.push(self.3.len());
        r.push(self.4.len());
        r.push(self.5.len());
        r.push(self.6.len());
        r.push(self.7.len());
        r.push(self.8.len());
        r.push(self.9.len());
        proof {
            assert(to_ints(r@) =~= self.spec_lens());
        }
        r
    }

    fn next_item(&self, indexes: &Vec<usize>) -> (r: (A, B, C, D, E, F, G, H, I, J)) {
        proof {
            assert(to_ints(indexes@)[0] < self.spec_lens()[0]);
            assert(to_ints(indexes@)[1] < self.spec_lens()[1]);
            assert(to_ints(indexes@)[2] < self.spec_lens()[2]);
            assert(to_ints(indexes@)[3] < self.spec_lens()[3]);
            assert(to_ints(indexes@)[4] < self.spec_lens()[4]);
            assert(to_ints(indexes@)[5] < self.spec_lens()[5]);
            assert(to_ints(indexes@)[6] < self.spec_lens()[6]);
            assert(to_ints(indexes@)[7] < self.spec_lens()[7]);
            assert(to_ints(indexes@)[8] < self.spec_lens()[8]);
            assert(to_ints(indexes@)[9] < self.spec_lens()[9]);
        }
        (self.0[indexes[0]], self.1[indexes[1]], self.2[indexes[2]], self.3[indexes[3]], self.4[indexes[4]], self.5[indexes[5]], self.6[indexes[6]], self.7[indexes[7]], self.8[indexes[8]], self.9[indexes[9]])
    }

    fn next_with_buffer(&self, indexes: &Vec<usize>, buffer: &mut (A, B, C, D, E, F, G, H, I, J)) {
        proof {
            assert(to_ints(indexes@)[0] < self.spec_lens()[0]);
            assert(to_ints(indexes@)[1] < self.spec_lens()[1]);
            assert(to_ints(indexes@)[2] < self.spec_lens()[2]);
            assert(to_ints(indexes@)[3] < self.spec_lens()[3]);
            assert(to_ints(indexes@)[4] < self.spec_lens()[4]);
            assert(to_ints(indexes@)[5] < self.spec_lens()[5]);
            assert(to_ints(indexes@)[6] < self.spec_lens()[6]);
            assert(to_ints(indexes@)[7] < self.spec_lens()[7]);
            assert(to_ints(indexes@)[8] < self.spec_lens()[8]);
            assert(to_ints(indexes@)[9] < self.spec_lens()[9]);
        }
        buffer.0 = self.0[indexes[0]];
        buffer.1 = self.1[indexes[1]];
        buffer.2 = self.2[indexes[2]];
        buffer.3 = self.3[indexes[3]];
        buffer.4 = self.4[indexes[4]];
        buffer.5 = self.5[indexes[5]];
        buffer.6 = self.6[indexes[6]];
        buffer.7 = self.7[indexes[7]];
        buffer.8 = self.8[indexes[8]];
        buffer.9 = self.9[indexes[9]];
    }

    fn duplicate(&self) -> (r: Self) {
        (copy_list(&self.0), copy_list(&self.1), copy_list(&self.2), copy_list(&self.3), copy_list(&self.4), copy_list(&self.5), copy_list(&self.6), copy_list(&self.7), copy_list(&self.8), copy_list(&self.9))
    }
}

impl<A: Copy, B: Copy, C: Copy, D: Copy, E: Copy, F: Copy, G: Copy, H: Copy, I: Copy, J: Copy, K: Copy> ListWrapper<(A, B, C, D, E, F, G, H, I, J, K)> for (Vec<A>, Vec<B>, Vec<C>, Vec<D>, Vec<E>, Vec<F>, Vec<G>, Vec<H>, Vec<I>, Vec<J>, Vec<K>) {
    type Model = (A, B, C, D, E, F, G, H, I, J, K);

    open spec fn wf(&self) -> bool {
        self.0@.len() >= 1 && self.1@.len() >= 1 && self.2@.len() >= 1 && self.3@.len() >= 1 && self.4@.len() >= 1 && self.5@.len() >= 1 && self.6@.len() >= 1 && self.7@.len() >= 1 && self.8@.len() >= 1 && self.9@.len() >= 1 && self.10@.len() >= 1
    }

    open spec fn spec_lens(&self) -> Seq<int> {
        seq![self.0@.len() as int, self.1@.len() as int, self.2@.len() as int, self.3@.len() as int, self.4@.len() as int, self.5@.len() as int, self.6@.len() as int, self.7@.len() as int, self.8@.len() as int, self.9@.len() as int, self.10@.len() as int]
    }

    open spec fn combo_at(&self, cursors: Seq<int>) -> (A, B, C, D, E, F, G, H, I, J, K) {
        (self.0@[cursors[0]], self.1@[cursors[1]], self.2@[cursors[2]], self.3@[cursors[3]], self.4@[cursors[4]], self.5@[cursors[5]], self.6@[cursors[6]], self.7@[cursors[7]], self.8@[cursors[8]], self.9@[cursors[9]], self.10@[cursors[10]])
    }

    open spec fn item_model(item: (A, B, C, D, E, F, G, H, I, J, K)) -> (A, B, C, D, E, F, G, H, I, J, K) {
        item
    }

    open spec fn valid_buffer(&self, item: (A, B, C, D, E, F, G, H, I, J, K)) -> bool {
        true
    }

    proof fn lemma_wf_lens(&self) {
    }

    fn wrapper_len(&self) -> (n: usize) {
        11
    }

    fn lens(&self) -> (r: Vec<usize>) {
        let mut r: Vec<usize> = Vec::new();
        r.push(self.0.len());
        r.push(self.1.len());
        r.push(self.2.len());
        r.push(self.3.len());
        r.push(self.4.len());
        r.push(self.5.len());
        r.push(self.6.len());
        r.push(self.7.len());
        r.push(self.8.len());
        r.push(self.9.len());
        r.push(self.10.len());
        proof {
            assert(to_ints(r@) =~= self.spec_lens());
        }
        r
    }

    fn next_item(&self, indexes: &Vec<usize>) -> (r: (A, B, C, D, E, F, G, H, I, J, K)) {
        proof {
            assert(to_ints(indexes@)[0] < self.spec_lens()[0]);
            assert(to_ints(indexes@)[1] < self.spec_lens()[1]);
            assert(to_ints(indexes@)[2] < self.spec_lens()[2]);
            assert(to_ints(indexes@)[3] < self.spec_lens()[3]);
            assert(to_ints(indexes@)[4] < self.spec_lens()[4]);
            assert(to_ints(indexes@)[5] < self.spec_lens()[5]);
            assert(to_ints(indexes@)[6] < self.spec_lens()[6]);
            assert(to_ints(indexes@)[7] < self.spec_lens()[7]);
            assert(to_ints(indexes@)[8] < self.spec_lens()[8]);
            assert(to_ints(indexes@)[9] < self.spec_lens()[9]);
            assert(to_ints(indexes@)[10] < self.spec_lens()[10]);
        }
        (self.0[indexes[0]], self.1[indexes[1]], self.2[indexes[2]], self.3[indexes[3]], self.4[indexes[4]], self.5[indexes[5]], self.6[indexes[6]], self.7[indexes[7]], self.8[indexes[8]], self.9[indexes[9]], self.10[indexes[10]])
    }

    fn next_with_buffer(&self, indexes: &Vec<usize>, buffer: &mut (A, B, C, D, E, F, G, H, I, J, K)) {
        proof {
            assert(to_ints(indexes@)[0] < self.spec_lens()[0]);
            assert(to_ints(indexes@)[1] < self.spec_lens()[1]);
            assert(to_ints(indexes@)[2] < self.spec_lens()[2]);
            assert(to_ints(indexes@)[3] < self.spec_lens()[3]);
            assert(to_ints(indexes@)[4] < self.spec_lens()[4]);
            assert(to_ints(indexes@)[5] < self.spec_lens()[5]);
            assert(to_ints(indexes@)[6] < self.spec_lens()[6]);
            assert(to_ints(indexes@)[7] < self.spec_lens()[7]);
            assert(to_ints(indexes@)[8] < self.spec_lens()[8]);
            assert(to_ints(indexes@)[9] < self.spec_lens()[9]);
            assert(to_ints(indexes@)[10] < self.spec_lens()[10]);
        }
        buffer.0 = self.0[indexes[0]];
        buffer.1 = self.1[indexes[1]];
        buffer.2 = self.2[indexes[2]];
        buffer.3 = self.3[indexes[3]];
        buffer.4 = self.4[indexes[4]];
        buffer.5 = self.5[indexes[5]];
        buffer.6 = self.6[indexes[6]];
        buffer.7 = self.7[indexes[7]];
        buffer.8 = self.8[indexes[8]];
        buffer.9 = self.9[indexes[9]];
        buffer.10 = self.10[indexes[10]];
    }

    fn duplicate(&self) -> (r: Self) {
        (copy_list(&self.0), copy_list(&self.1), copy_list(&self.2), copy_list(&self.3), copy_list(&self.4), copy_list(&self.5), copy_list(&self.6), copy_list(&self.7), copy_list(&self.8), copy_list(&self.9), copy_list(&self.10))
    }
}

impl<A: Copy, B: Copy, C: Copy, D: Copy, E: Copy, F: Copy, G: Copy, H: Copy, I: Copy, J: Copy, K: Copy, L: Copy> ListWrapper<(A, B, C, D, E, F, G, H, I, J, K, L)> for (Vec<A>, Vec<B>, Vec<C>, Vec<D>, Vec<E>, Vec<F>, Vec<G>, Vec<H>, Vec<I>, Vec<J>, Vec<K>, Vec<L>) {
    type Model = (A, B, C, D, E, F, G, H, I, J, K, L);

    open spec fn wf(&self) -> bool {
        self.0@.len() >= 1 && self.1@.len() >= 1 && self.2@.len() >= 1 && self.3@.len() >= 1 && self.4@.len() >= 1 && self.5@.len() >= 1 && self.6@.len() >= 1 && self.7@.len() >= 1 && self.8@.len() >= 1 && self.9@.len() >= 1 && self.10@.len() >= 1 && self.11@.len() >= 1
    }

    open spec fn spec_lens(&self) -> Seq<int> {
        seq![self.0@.len() as int, self.1@.len() as int, self.2@.len() as int, self.3@.len() as int, self.4@.len() as int, self.5@.len() as int, self.6@.len() as int, self.7@.len() as int, self.8@.len() as int, self.9@.len() as int, self.10@.len() as int, self.11@.len() as int]
    }

    open spec fn combo_at(&self, cursors: Seq<int>) -> (A, B, C, D, E, F, G, H, I, J, K, L) {
        (self.0@[cursors[0]], self.1@[cursors[1]], self.2@[cursors[2]], self.3@[cursors[3]], self.4@[cursors[4]], self.5@[cursors[5]], self.6@[cursors[6]], self.7@[cursors[7]], self.8@[cursors[8]], self.9@[cursors[9]], self.10@[cursors[10]], self.11@[cursors[11]])
    }

    open spec fn item_model(item: (A, B, C, D, E, F, G, H, I, J, K, L)) -> (A, B, C, D, E, F, G, H, I, J, K, L) {
        item
    }

    open spec fn valid_buffer(&self, item: (A, B, C, D, E, F, G, H, I, J, K, L)) -> bool {
        true
    }

    proof fn lemma_wf_lens(&self) {
    }

    fn wrapper_len(&self) -> (n: usize) {
        12
    }

    fn lens(&self) -> (r: Vec<usize>) {
        let mut r: Vec<usize> = Vec::new();
        r.push(self.0.len());
        r.push(self.1.len());
        r.push(self.2.len());
        r.push(self.3.len());
        r.push(self.4.len());
        r.push(self.5.len());
        r.push(self.6.len());
        r.push(self.7.len());
        r.push(self.8.len());
        r.push(self.9.len());
        r.push(self.10.len());
        r.push(self.11.len());
        proof {
            assert(to_ints(r@) =~= self.spec_lens());
        }
        r
    }

    fn next_item(&self, indexes: &Vec<usize>) -> (r: (A, B, C, D, E, F, G, H, I, J, K, L)) {
        proof {
            assert(to_ints(indexes@)[0] < self.spec_lens()[0]);
            assert(to_ints(indexes@)[1] < self.spec_lens()[1]);
            assert(to_ints(indexes@)[2] < self.spec_lens()[2]);
            assert(to_ints(indexes@)[3] < self.spec_lens()[3]);
            assert(to_ints(indexes@)[4] < self.spec_lens()[4]);
            assert(to_ints(indexes@)[5] < self.spec_lens()[5]);
            assert(to_ints(indexes@)[6] < self.spec_lens()[6]);
            assert(to_ints(indexes@)[7] < self.spec_lens()[7]);
            assert(to_ints(indexes@)[8] < self.spec_lens()[8]);
            assert(to_ints(indexes@)[9] < self.spec_lens()[9]);
            assert(to_ints(indexes@)[10] < self.spec_lens()[10]);
            assert(to_ints(indexes@)[11] < self.spec_lens()[11]);
        }
        (self.0[indexes[0]], self.1[indexes[1]], self.2[indexes[2]], self.3[indexes[3]], self.4[indexes[4]], self.5[indexes[5]], self.6[indexes[6]], self.7[indexes[7]], self.8[indexes[8]], self.9[indexes[9]], self.10[indexes[10]], self.11[indexes[11]])
    }

    fn next_with_buffer(&self, indexes: &Vec<usize>, buffer: &mut (A, B, C, D, E, F, G, H, I, J, K, L)) {
        proof {
            assert(to_ints(indexes@)[0] < self.spec_lens()[0]);
            assert(to_ints(indexes@)[1] < self.spec_lens()[1]);
            assert(to_ints(indexes@)[2] < self.spec_lens()[2]);
            assert(to_ints(indexes@)[3] < self.spec_lens()[3]);
            assert(to_ints(indexes@)[4] < self.spec_lens()[4]);
            assert(to_ints(indexes@)[5] < self.spec_lens()[5]);
            assert(to_ints(indexes@)[6] < self.spec_lens()[6]);
            assert(to_ints(indexes@)[7] < self.spec_lens()[7]);
            assert(to_ints(indexes@)[8] < self.spec_lens()[8]);
            assert(to_ints(indexes@)[9] < self.spec_lens()[9]);
            assert(to_ints(indexes@)[10] < self.spec_lens()[10]);
            assert(to_ints(indexes@)[11] < self.spec_lens()[11]);
        }
        buffer.0 = self.0[indexes[0]];
        buffer.1 = self.1[indexes[1]];
        buffer.2 = self.2[indexes[2]];
        buffer.3 = self.3[indexes[3]];
        buffer.4 = self.4[indexes[4]];
        buffer.5 = self.5[indexes[5]];
        buffer.6 = self.6[indexes[6]];
        buffer.7 = self.7[indexes[7]];
        buffer.8 = self.8[indexes[8]];
        buffer.9 = self.9[indexes[9]];
        buffer.10 = self.10[indexes[10]];
        buffer.11 = self.11[indexes[11]];
    }

    fn duplicate(&self) -> (r: Self) {
        (copy_list(&self.0), copy_list(&self.1), copy_list(&self.2), copy_list(&self.3), copy_list(&self.4), copy_list(&self.5), copy_list(&self.6), copy_list(&self.7), copy_list(&self.8), copy_list(&self.9), copy_list(&self.10), copy_list(&self.11))
    }
}

} // verus!
