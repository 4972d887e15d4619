//! Script paths: joining a requested path onto the safe directory, and
//! checking that the resolved script stays inside it. Paths are the bytes of
//! Unix paths, compared component by component as the standard library does.
use vstd::prelude::*;

verus! {

broadcast use vstd::string::group_string_axioms;

pub open spec fn is_absolute(p: Seq<u8>) -> bool {
    p.len() > 0 && p[0] == 0x2f
}

/// `path` joined onto `base`: an absolute path replaces the base; otherwise a
/// `/` separates them unless the base is empty or already ends in one.
pub open spec fn joined_path(base: Seq<u8>, path: Seq<u8>) -> Seq<u8> {
    if is_absolute(path) {
        path
    } else if base.len() > 0 && base.last() != 0x2f {
        base + seq![0x2fu8] + path
    } else {
        base + path
    }
}

/// Joins `path` onto `base`.
pub fn join_path(base: &[u8], path: &[u8]) -> (r: Vec<u8>)
    ensures
        r@ == joined_path(base@, path@),
{
    let mut r: Vec<u8> = Vec::new();
    if !(path.len() > 0 && path[0] == 0x2f) {
        let mut i: usize = 0;
        while i < base.len()
            invariant
                i <= base@.len(),
                r@ == base@.take(i as int),
            decreases base@.len() - i,
        {
            r.push(base[i]);
            i = i + 1;
        }
        assert(base@.take(base@.len() as int) =~= base@);
        if base.len() > 0 && base[base.len() - 1] != 0x2f {
            r.push(0x2f);
        }
    }
    let ghost prefix = r@;
    let mut j: usize = 0;
    while j < path.len()
        invariant
            j <= path@.len(),
            r@ == prefix + path@.take(j as int),
        decreases path@.len() - j,
    {
        r.push(path[j]);
        proof {
            assert(path@.take(j + 1) =~= path@.take(j as int).push(path@[j as int]));
        }
        j = j + 1;
    }
    assert(path@.take(path@.len() as int) =~= path@);
    assert(r@ =~= joined_path(base@, path@));
    r
}

/// Adds a finished piece to the components: empty pieces and `.` are dropped.
pub open spec fn flush(done: Seq<Seq<u8>>, cur: Seq<u8>) -> Seq<Seq<u8>> {
    if cur.len() == 0 || cur == seq![0x2eu8] {
        done
    } else {
        done.push(cur)
    }
}

/// Reading `b` left to right: the pieces finished so far and the piece being read.
pub open spec fn scan(b: Seq<u8>) -> (Seq<Seq<u8>>, Seq<u8>)
    decreases b.len(),
{
    if b.len() == 0 {
        (Seq::empty(), Seq::empty())
    } else {
        let (done, cur) = scan(b.drop_last());
        if b.last() == 0x2f {
            (flush(done, cur), Seq::empty())
        } else {
            (done, cur.push(b.last()))
        }
    }
}

/// The components after the start of a path: its `/`-separated pieces
/// without the empty ones and `.`.
pub open spec fn body_components(b: Seq<u8>) -> Seq<Seq<u8>> {
    flush(scan(b).0, scan(b).1)
}

/// The components of a Unix path: a leading `/` (the root) or a leading `.`
/// followed by `/` or the end (the current directory), then the body.
pub open spec fn path_components(p: Seq<u8>) -> Seq<Seq<u8>> {
    if is_absolute(p) {
        seq![seq![0x2fu8]] + body_components(p.drop_first())
    } else if p.len() > 0 && p[0] == 0x2e && (p.len() == 1 || p[1] == 0x2f) {
        seq![seq![0x2eu8]] + body_components(p.drop_first())
    } else {
        body_components(p)
    }
}

/// Whether `base` is a prefix of `p`, component by component.
pub open spec fn path_starts_with(p: Seq<u8>, base: Seq<u8>) -> bool {
    let pc = path_components(p);
    let bc = path_components(base);
    bc.len() <= pc.len() && pc.take(bc.len() as int) == bc
}

proof fn lemma_bytes_deep_view(v: Vec<u8>)
    ensures
        v.deep_view() == v@,
{
    assert(v.deep_view() =~= v@);
}

fn body_components_of(b: &[u8], start: usize) -> (r: Vec<Vec<u8>>)
    requires
        start <= b@.len(),
    ensures
        r.deep_view() == body_components(b@.skip(start as int)),
{
    let ghost s = b@.skip(start as int);
    let mut done: Vec<Vec<u8>> = Vec::new();
    let mut cur: Vec<u8> = Vec::new();
    let mut i: usize = start;
    while i < b.len()
        invariant
            start <= i <= b@.len(),
            s == b@.skip(start as int),
            (done.deep_view(), cur@) == scan(s.take(i - start)),
        decreases b@.len() - i,
    {
        let ghost t = s.take(i - start + 1);
        assert(t.drop_last() =~= s.take(i - start));
        assert(t.last() == b@[i as int]);
        let c = b[i];
        if c == 0x2f {
            if !(cur.len() == 0 || (cur.len() == 1 && cur[0] == 0x2e)) {
                let ghost before = done.deep_view();
                let ghost cv = cur@;
                proof {
                    lemma_bytes_deep_view(cur);
                }
                done.push(cur);
                assert(done.deep_view() =~= before.push(cv));
            } else {
                assert(cur@.len() == 0 || cur@ =~= seq![0x2eu8]);
                assert(flush(done.deep_view(), cur@) == done.deep_view());
            }
            cur = Vec::new();
            assert(cur@ =~= Seq::<u8>::empty());
        } else {
            assert(cur@.len() == 1 && cur@[0] == 0x2e ==> cur@ =~= seq![0x2eu8]);
            cur.push(c);
        }
        i = i + 1;
    }
    assert(s.take(b@.len() - start) =~= s);
    if !(cur.len() == 0 || (cur.len() == 1 && cur[0] == 0x2e)) {
        let ghost before = done.deep_view();
        let ghost cv = cur@;
        proof {
            lemma_bytes_deep_view(cur);
        }
        done.push(cur);
        assert(done.deep_view() =~= before.push(cv));
    } else {
        assert(cur@.len() == 0 || cur@ =~= seq![0x2eu8]);
        assert(flush(done.deep_view(), cur@) == done.deep_view());
    }
    done
}

/// The components of a Unix path.
pub fn components(p: &[u8]) -> (r: Vec<Vec<u8>>)
    ensures
        r.deep_view() == path_components(p@),
{
    if p.len() > 0 && p[0] == 0x2f {
        let mut r: Vec<Vec<u8>> = Vec::new();
        let first = vec![0x2fu8];
        proof {
            lemma_bytes_deep_view(first);
            assert(first@ =~= seq![0x2fu8]);
        }
        r.push(first);
        let body = body_components_of(p, 1);
        let ghost bv = body.deep_view();
        let ghost bs = body@;
        let mut rest = body;
        r.append(&mut rest);
        assert(p@.skip(1) =~= p@.drop_first());
        assert(r@ =~= seq![r@[0]] + bs);
        assert(r.deep_view() =~= seq![seq![0x2fu8]] + bv);
        r
    } else if p.len() > 0 && p[0] == 0x2e && (p.len() == 1 || p[1] == 0x2f) {
        let mut r: Vec<Vec<u8>> = Vec::new();
        let first = vec![0x2eu8];
        proof {
            lemma_bytes_deep_view(first);
            assert(first@ =~= seq![0x2eu8]);
        }
        r.push(first);
        let body = body_components_of(p, 1);
        let ghost bv = body.deep_view();
        let ghost bs = body@;
        let mut rest = body;
        r.append(&mut rest);
        assert(p@.skip(1) =~= p@.drop_first());
        assert(r@ =~= seq![r@[0]] + bs);
        assert(r.deep_view() =~= seq![seq![0x2eu8]] + bv);
        r
    } else {
        let r = body_components_of(p, 0);
        assert(p@.skip(0) =~= p@);
        r
    }
}

fn bytes_eq(a: &Vec<u8>, b: &Vec<u8>) -> (r: bool)
    ensures
        r == (a@ == b@),
{
    if a.len() != b.len() {
        return false;
    }
    let mut i: usize = 0;
    while i < a.len()
        invariant
            a@.len() == b@.len(),
            i <= a@.len(),
            forall|k: int| 0 <= k < i ==> a@[k] == b@[k],
        decreases a@.len() - i,
    {
        if a[i] != b[i] {
            return false;
        }
        i = i + 1;
    }
    assert(a@ =~= b@);
    true
}

/// Whether `base` is a prefix of `p`, component by component.
pub fn starts_with(p: &[u8], base: &[u8]) -> (r: bool)
    ensures
        r == path_starts_with(p@, base@),
{
    let pc = components(p);
    let bc = components(base);
    if bc.len() > pc.len() {
        return false;
    }
    let mut i: usize = 0;
    while i < bc.len()
        invariant
            bc.len() <= pc.len(),
            i <= bc.len(),
            pc.deep_view() == path_components(p@),
            bc.deep_view() == path_components(base@),
            forall|k: int| 0 <= k < i ==> pc.deep_view()[k] == bc.deep_view()[k],
        decreases bc.len() - i,
    {
        proof {
            lemma_bytes_deep_view(pc@[i as int]);
            lemma_bytes_deep_view(bc@[i as int]);
        }
        if !bytes_eq(&pc[i], &bc[i]) {
            assert(pc.deep_view().take(bc.len() as int)[i as int] != bc.deep_view()[i as int]);
            return false;
        }
        i = i + 1;
    }
    assert(pc.deep_view().take(bc.len() as int) =~= bc.deep_view());
    true
}

/// The answer to a script path check, given the canonical forms of the safe
/// directory and of the requested script (or why each could not be had).
pub open spec fn script_check(safe_dir: Result<Seq<u8>, Seq<char>>, script: Result<Seq<u8>, Seq<char>>) -> Result<Seq<u8>, Seq<char>> {
    match safe_dir {
        Err(e) => Err("script safe dir unavailable: "@ + e),
        Ok(s) => match script {
            Err(e) => Err("script path invalid: "@ + e),
            Ok(p) => if path_starts_with(p, s) {
                Ok(p)
            } else {
                Err("script path escapes safe directory"@)
            },
        },
    }
}

pub open spec fn result_view(r: Result<Vec<u8>, String>) -> Result<Seq<u8>, Seq<char>> {
    match r {
        Ok(v) => Ok(v@),
        Err(e) => Err(e@),
    }
}

/// Checks that a script stays inside the safe directory, given the canonical
/// forms of both (or the errors that resolving them gave): the canonical
/// script path when it lies under the safe directory, else why not.
pub fn validate_script_path(canonical_safe_dir: Result<Vec<u8>, String>, canonical_script: Result<Vec<u8>, String>) -> (r: Result<Vec<u8>, String>)
    ensures
        result_view(r) == script_check(result_view(canonical_safe_dir), result_view(canonical_script)),
{
    let safe = match canonical_safe_dir {
        Ok(s) => s,
        Err(e) => {
            let mut m = "script safe dir unavailable: ".to_string();
            m.append(e.as_str());
            return Err(m);
        },
    };
    let script = match canonical_script {
        Ok(p) => p,
        Err(e) => {
            let mut m = "script path invalid: ".to_string();
            m.append(e.as_str());
            return Err(m);
        },
    };
    if starts_with(script.as_slice(), safe.as_slice()) {
        Ok(script)
    } else {
        Err("script path escapes safe directory".to_string())
    }
}


/// A script path is accepted only when the safe directory is its prefix,
/// component by component, so a path that climbs out with `..` or names a
/// sibling directory is refused once resolved.
pub proof fn lemma_accepted_scripts_stay_inside(safe_dir: Result<Seq<u8>, Seq<char>>, script: Result<Seq<u8>, Seq<char>>)
    ensures
        script_check(safe_dir, script) matches Ok(p) ==> (safe_dir matches Ok(s) && script == Ok::<Seq<u8>, Seq<char>>(p)
            && path_starts_with(p, s)),
{
}

} // verus!
