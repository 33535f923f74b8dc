//! Árbol de documentos: la colección, sus reglas de coherencia entre padres e
//! hijos, y las operaciones que la consultan y la modifican.

use vstd::prelude::*;

use crate::fallo::Fallo;
use crate::id::{ContadorIds, Id};
use crate::roles::Editor;

use crate::ruta::{ruta, vista_rutas, Metodo, Ruta, RutaVista};

verus! {

/// Un documento del árbol.
pub struct Documento {
    pub id: Id,
    pub padre: Id,
    pub titulo: String,
    pub contenido: String,
    pub hijos: Vec<Id>,
}

/// Vista matemática de un documento.
pub struct DocVista {
    pub id: Id,
    pub padre: Id,
    pub titulo: Seq<char>,
    pub contenido: Seq<char>,
    pub hijos: Seq<Id>,
}

impl View for Documento {
    type V = DocVista;

    open spec fn view(&self) -> DocVista {
        DocVista {
            id: self.id,
            padre: self.padre,
            titulo: self.titulo@,
            contenido: self.contenido@,
            hijos: self.hijos@,
        }
    }
}

impl Clone for Documento {
    fn clone(&self) -> (r: Self)
        ensures
            r@ == self@,
    {
        let hijos = self.hijos.clone();
        assert(hijos@ =~= self.hijos@);
        Documento {
            id: self.id,
            padre: self.padre,
            titulo: self.titulo.clone(),
            contenido: self.contenido.clone(),
            hijos,
        }
    }
}

/// Las vistas de una secuencia de documentos, en el mismo orden.
pub open spec fn vista_de(v: Seq<Documento>) -> Seq<DocVista> {
    Seq::new(v.len(), |i: int| v[i]@)
}

/// Algún documento de `s` tiene el identificador `x`.
pub open spec fn tiene_id(s: Seq<DocVista>, x: Id) -> bool {
    exists|i: int| 0 <= i < s.len() && #[trigger] s[i].id == x
}

/// Ningún identificador se repite en `s`.
pub open spec fn ids_unicos(s: Seq<DocVista>) -> bool {
    forall|i: int, j: int|
        0 <= i < s.len() && 0 <= j < s.len() && #[trigger] s[i].id == #[trigger] s[j].id ==> i == j
}

/// El documento `c`, que no es la raíz, tiene por padre a `p`.
pub open spec fn apunta_a(s: Seq<DocVista>, c: Id, p: Id) -> bool {
    c != 0 && exists|j: int| 0 <= j < s.len() && #[trigger] s[j].id == c && s[j].padre == p
}

/// La raíz (identificador `0`) está presente y es su propio padre.
pub open spec fn raiz_presente(s: Seq<DocVista>) -> bool {
    &&& tiene_id(s, 0)
    &&& forall|i: int| 0 <= i < s.len() && #[trigger] s[i].id == 0 ==> s[i].padre == 0
}

/// El padre de cada documento que no es la raíz existe.
pub open spec fn padres_existen(s: Seq<DocVista>) -> bool {
    forall|j: int| 0 <= j < s.len() && #[trigger] s[j].id != 0 ==> tiene_id(s, s[j].padre)
}

/// La lista de hijos de cada documento no repite elementos y contiene
/// exactamente los identificadores de los documentos que lo tienen por padre.
pub open spec fn hijos_exactos(s: Seq<DocVista>) -> bool {
    &&& forall|i: int| 0 <= i < s.len() ==> (#[trigger] s[i].hijos).no_duplicates()
    &&& forall|i: int, c: Id|
        0 <= i < s.len() ==> (#[trigger] s[i].hijos.contains(c) <==> apunta_a(s, c, s[i].id))
}

/// Las reglas de coherencia del árbol de documentos.
pub open spec fn arbol_valido(s: Seq<DocVista>) -> bool {
    &&& raiz_presente(s)
    &&& ids_unicos(s)
    &&& padres_existen(s)
    &&& hijos_exactos(s)
}

/// Todos los identificadores de `s` son menores que `n`.
pub open spec fn ids_menores(s: Seq<DocVista>, n: Id) -> bool {
    forall|i: int| 0 <= i < s.len() ==> #[trigger] s[i].id < n
}

/// Posición del documento con identificador `x` (significativa si existe).
pub open spec fn indice_de(s: Seq<DocVista>, x: Id) -> int {
    choose|i: int| 0 <= i < s.len() && #[trigger] s[i].id == x
}

/// El documento con identificador `x` (significativo si existe).
pub open spec fn doc_de(s: Seq<DocVista>, x: Id) -> DocVista {
    s[indice_de(s, x)]
}

/// El árbol tras sustituir el título y el contenido del documento `x`.
pub open spec fn tras_cambiar(s: Seq<DocVista>, x: Id, titulo: Seq<char>, contenido: Seq<char>) -> Seq<
    DocVista,
> {
    Seq::new(
        s.len(),
        |k: int|
            if s[k].id == x {
                DocVista {
                    id: s[k].id,
                    padre: s[k].padre,
                    titulo,
                    contenido,
                    hijos: s[k].hijos,
                }
            } else {
                s[k]
            },
    )
}

/// El documento `d` con `c` añadido al final de su lista de hijos.
pub open spec fn con_hijo(d: DocVista, c: Id) -> DocVista {
    DocVista { id: d.id, padre: d.padre, titulo: d.titulo, contenido: d.contenido, hijos: d.hijos.push(c) }
}

/// El árbol tras crear el documento `x` bajo `padre`: el padre recibe `x`
/// como último hijo y el nuevo documento, sin hijos, va al final.
pub open spec fn tras_crear(
    s: Seq<DocVista>,
    x: Id,
    padre: Id,
    titulo: Seq<char>,
    contenido: Seq<char>,
) -> Seq<DocVista> {
    Seq::new(s.len(), |k: int| if s[k].id == padre { con_hijo(s[k], x) } else { s[k] }).push(
        DocVista { id: x, padre, titulo, contenido, hijos: Seq::empty() },
    )
}

/// Sustituir título y contenido no altera la estructura del árbol.
proof fn lemma_cambiar_preserva(s: Seq<DocVista>, x: Id, titulo: Seq<char>, contenido: Seq<char>, n: Id)
    requires
        arbol_valido(s),
        ids_menores(s, n),
    ensures
        arbol_valido(tras_cambiar(s, x, titulo, contenido)),
        ids_menores(tras_cambiar(s, x, titulo, contenido), n),
{
    let t = tras_cambiar(s, x, titulo, contenido);
    assert forall|y: Id| tiene_id(s, y) implies tiene_id(t, y) by {
        let i = choose|i: int| 0 <= i < s.len() && s[i].id == y;
        assert(t[i].id == y);
    }
    assert forall|c: Id, p: Id| apunta_a(s, c, p) <==> apunta_a(t, c, p) by {
        if apunta_a(s, c, p) {
            let j = choose|j: int| 0 <= j < s.len() && s[j].id == c && s[j].padre == p;
            assert(t[j].id == c);
        }
        if apunta_a(t, c, p) {
            let j = choose|j: int| 0 <= j < t.len() && t[j].id == c && t[j].padre == p;
            assert(s[j].id == c);
        }
    }
}

/// Crear un documento bajo un padre existente, con un identificador mayor
/// que todos los presentes, conserva las reglas del árbol.
proof fn lemma_crear_preserva(s: Seq<DocVista>, x: Id, padre: Id, titulo: Seq<char>, contenido: Seq<char>)
    requires
        arbol_valido(s),
        ids_menores(s, x),
        tiene_id(s, padre),
    ensures
        arbol_valido(tras_crear(s, x, padre, titulo, contenido)),
        x < u64::MAX ==> ids_menores(tras_crear(s, x, padre, titulo, contenido), (x + 1) as Id),
{
    let t = tras_crear(s, x, padre, titulo, contenido);
    let n: int = s.len() as int;
    assert(t.len() == n + 1);
    assert(t[n].id == x);
    assert forall|k: int| 0 <= k < n implies t[k].id == s[k].id && t[k].padre == s[k].padre by {}
    assert forall|y: Id| tiene_id(s, y) implies tiene_id(t, y) by {
        let i = choose|i: int| 0 <= i < s.len() && s[i].id == y;
        assert(t[i].id == y);
    }
    // nadie apunta al nuevo documento
    assert forall|j: int| 0 <= j < t.len() && t[j].id != 0 implies t[j].padre != x by {
        if j < n {
            assert(tiene_id(s, s[j].padre));
            let i = choose|i: int| 0 <= i < s.len() && s[i].id == s[j].padre;
            assert(s[i].id < x);
        } else {
            let i = choose|i: int| 0 <= i < s.len() && s[i].id == padre;
            assert(s[i].id < x);
        }
    }
    assert forall|c: Id, p: Id| #[trigger] apunta_a(t, c, p) <==> (apunta_a(s, c, p) || (c == x && p == padre && x != 0)) by {
        if apunta_a(s, c, p) {
            let j = choose|j: int| 0 <= j < s.len() && s[j].id == c && s[j].padre == p;
            assert(t[j].id == c && t[j].padre == p);
        }
        if apunta_a(t, c, p) {
            let j = choose|j: int| 0 <= j < t.len() && t[j].id == c && t[j].padre == p;
            if j < n {
                assert(s[j].id == c && s[j].padre == p);
            }
        }
        if c == x && p == padre && x != 0 {
            assert(t[n].id == c && t[n].padre == p);
        }
    }
    assert(x != 0) by {
        let i = choose|i: int| 0 <= i < s.len() && s[i].id == padre;
        assert(s[i].id < x);
    }
    assert forall|i: int| 0 <= i < t.len() implies (#[trigger] t[i].hijos).no_duplicates() by {
        if i < n && s[i].id == padre {
            assert(!s[i].hijos.contains(x)) by {
                if s[i].hijos.contains(x) {
                    assert(apunta_a(s, x, s[i].id));
                    let j = choose|j: int| 0 <= j < s.len() && s[j].id == x && s[j].padre == s[i].id;
                    assert(s[j].id < x);
                }
            }
            assert forall|a: int, b: int| 0 <= a < t[i].hijos.len() && 0 <= b < t[i].hijos.len() && a != b
                implies t[i].hijos[a] != t[i].hijos[b] by {
                if a < s[i].hijos.len() && b < s[i].hijos.len() {
                } else if a < s[i].hijos.len() {
                    assert(s[i].hijos.contains(t[i].hijos[a]));
                } else if b < s[i].hijos.len() {
                    assert(s[i].hijos.contains(t[i].hijos[b]));
                }
            }
        }
    }
    assert forall|i: int, c: Id| 0 <= i < t.len() implies (#[trigger] t[i].hijos.contains(c) <==> apunta_a(t, c, t[i].id)) by {
        if i < n && s[i].id == padre {
            assert(t[i].hijos == s[i].hijos.push(x));
            if t[i].hijos.contains(c) && c != x {
                let a = choose|a: int| 0 <= a < t[i].hijos.len() && t[i].hijos[a] == c;
                assert(s[i].hijos[a] == c);
            }
            if c == x {
                assert(t[i].hijos[s[i].hijos.len() as int] == x);
            }
            if s[i].hijos.contains(c) {
                let a = choose|a: int| 0 <= a < s[i].hijos.len() && s[i].hijos[a] == c;
                assert(t[i].hijos[a] == c);
            }
        } else if i == n {
            assert(!apunta_a(t, c, x));
        }
    }
    assert forall|j: int| 0 <= j < t.len() && #[trigger] t[j].id != 0 implies tiene_id(t, t[j].padre) by {
        if j == n {
            assert(tiene_id(t, padre));
        } else {
            assert(tiene_id(s, s[j].padre));
        }
    }
    assert forall|i: int, j: int| 0 <= i < t.len() && 0 <= j < t.len() && #[trigger] t[i].id == #[trigger] t[j].id implies i == j by {
        if i < n && j < n {
            assert(s[i].id == s[j].id);
        }
    }
    assert(tiene_id(t, 0)) by {
        let i = choose|i: int| 0 <= i < s.len() && s[i].id == 0;
        assert(t[i].id == 0);
    }
}

/// El documento `x` existe y tiene al menos un hijo.
pub open spec fn tiene_hijos(s: Seq<DocVista>, x: Id) -> bool {
    exists|i: int| 0 <= i < s.len() && #[trigger] s[i].id == x && s[i].hijos.len() > 0
}

/// El documento `d` sin `c` en su lista de hijos.
pub open spec fn sin_hijo(d: DocVista, c: Id) -> DocVista {
    if d.hijos.contains(c) {
        DocVista {
            id: d.id,
            padre: d.padre,
            titulo: d.titulo,
            contenido: d.contenido,
            hijos: d.hijos.remove(d.hijos.index_of(c)),
        }
    } else {
        d
    }
}

/// El árbol tras borrar el documento `x`: desaparece de la colección y de
/// la lista de hijos de su padre.
pub open spec fn tras_borrar(s: Seq<DocVista>, x: Id) -> Seq<DocVista> {
    let r = s.remove(indice_de(s, x));
    Seq::new(r.len(), |k: int| sin_hijo(r[k], x))
}

/// Quitar de una lista sin repeticiones la posición de `c` deja los demás
/// elementos.
proof fn lemma_quitar_sin_repetidos(h: Seq<Id>, p: int)
    requires
        h.no_duplicates(),
        0 <= p < h.len(),
    ensures
        h.remove(p).no_duplicates(),
        forall|c: Id| h.remove(p).contains(c) <==> (h.contains(c) && c != h[p]),
        h.index_of(h[p]) == p,
{
    let r = h.remove(p);
    assert forall|k: int| 0 <= k < r.len() implies r[k] == h[if k < p { k } else { k + 1 }] by {}
    assert forall|c: Id| r.contains(c) <==> (h.contains(c) && c != h[p]) by {
        if r.contains(c) {
            let k = choose|k: int| 0 <= k < r.len() && r[k] == c;
            assert(h[if k < p { k } else { k + 1 }] == c);
        }
        if h.contains(c) && c != h[p] {
            let k = choose|k: int| 0 <= k < h.len() && h[k] == c;
            if k < p {
                assert(r[k] == c);
            } else {
                assert(r[k - 1] == c);
            }
        }
    }
    assert(h.contains(h[p]));
}

/// Posición en la secuencia original de la posición `k` tras quitar la `i`.
spec fn origen(k: int, i: int) -> int {
    if k < i {
        k
    } else {
        k + 1
    }
}

/// Cómo queda cada documento tras borrar `x`, que no tiene hijos.
proof fn lemma_borrar_por_posicion(s: Seq<DocVista>, x: Id)
    requires
        arbol_valido(s),
        x != 0,
        tiene_id(s, x),
        !tiene_hijos(s, x),
    ensures
        tras_borrar(s, x).len() == s.len() - 1,
        forall|k: int|
            0 <= k < tras_borrar(s, x).len() ==> {
                let m = origen(k, indice_de(s, x));
                &&& (#[trigger] tras_borrar(s, x)[k]).id == s[m].id
                &&& tras_borrar(s, x)[k].padre == s[m].padre
                &&& tras_borrar(s, x)[k].hijos.no_duplicates()
                &&& forall|c: Id|
                    tras_borrar(s, x)[k].hijos.contains(c) <==> (s[m].hijos.contains(c) && c != x)
            },
        forall|j: int| 0 <= j < s.len() && s[j].id != 0 ==> #[trigger] s[j].padre != x,
{
    let i = indice_de(s, x);
    let r = s.remove(i);
    let t = tras_borrar(s, x);
    assert(s[i].hijos.len() == 0);
    assert forall|k: int| 0 <= k < r.len() implies r[k] == s[origen(k, i)] by {}
    assert forall|j: int| 0 <= j < s.len() && s[j].id != 0 implies #[trigger] s[j].padre != x by {
        if s[j].padre == x {
            assert(apunta_a(s, s[j].id, s[i].id));
            assert(s[i].hijos.contains(s[j].id));
        }
    }
    assert forall|k: int| 0 <= k < t.len() implies (#[trigger] t[k]).id == r[k].id && t[k].padre == r[k].padre
        && t[k].hijos.no_duplicates()
        && (forall|c: Id| t[k].hijos.contains(c) <==> (r[k].hijos.contains(c) && c != x)) by {
        let h = r[k].hijos;
        assert(h.no_duplicates());
        if h.contains(x) {
            let p = h.index_of(x);
            lemma_quitar_sin_repetidos(h, p);
        }
    }
}

/// Posición tras quitar la `i` de la que ocupaba `m` (con `m != i`).
spec fn origen_inv(m: int, i: int) -> int {
    if m < i {
        m
    } else {
        m - 1
    }
}

/// En un árbol válido, sólo el padre de `x` lo tiene en su lista de hijos.
proof fn lemma_solo_el_padre(s: Seq<DocVista>, i: int, ip: int, x: Id)
    requires
        arbol_valido(s),
        0 <= i < s.len(),
        s[i].id == x,
        0 <= ip < s.len(),
        s[ip].id == s[i].padre,
    ensures
        forall|k: int| 0 <= k < s.len() && (#[trigger] s[k].hijos).contains(x) ==> k == ip,
        s[ip].hijos.no_duplicates(),
{
    assert forall|k: int| 0 <= k < s.len() && (#[trigger] s[k].hijos).contains(x) implies k == ip by {
        assert(apunta_a(s, x, s[k].id));
        let j = choose|j: int| 0 <= j < s.len() && s[j].id == x && s[j].padre == s[k].id;
        assert(j == i);
        assert(s[k].id == s[ip].id);
    }
}

/// El efecto de quitar `x` de la lista de su padre (posición `ip`) y luego
/// el propio documento (posición `i`) es `tras_borrar`.
#[verifier::spinoff_prover]
proof fn lemma_borrar_resultado(
    antes: Seq<DocVista>,
    medio: Seq<DocVista>,
    fin: Seq<DocVista>,
    i: int,
    ip: int,
    p: int,
    x: Id,
)
    requires
        0 <= i < antes.len(),
        indice_de(antes, x) == i,
        0 <= ip < antes.len(),
        antes[ip].hijos.no_duplicates(),
        forall|k: int| 0 <= k < antes.len() && (#[trigger] antes[k].hijos).contains(x) ==> k == ip,
        0 <= p < antes[ip].hijos.len(),
        antes[ip].hijos[p] == x,
        medio.len() == antes.len(),
        forall|k: int| 0 <= k < antes.len() && k != ip ==> #[trigger] medio[k] == antes[k],
        medio[ip] == (DocVista {
            id: antes[ip].id,
            padre: antes[ip].padre,
            titulo: antes[ip].titulo,
            contenido: antes[ip].contenido,
            hijos: antes[ip].hijos.remove(p),
        }),
        fin == medio.remove(i),
    ensures
        fin == tras_borrar(antes, x),
{
    let t = tras_borrar(antes, x);
    lemma_quitar_sin_repetidos(antes[ip].hijos, p);
    assert(antes[ip].hijos.contains(x));
    assert(medio[ip] == sin_hijo(antes[ip], x));
    assert forall|k: int| 0 <= k < antes.len() implies #[trigger] medio[k] == sin_hijo(antes[k], x) by {
        if k != ip {
            assert(!antes[k].hijos.contains(x));
        }
    }
    assert(fin =~= t) by {
        assert forall|k: int| 0 <= k < t.len() implies #[trigger] fin[k] == t[k] by {
            if k < i {
                assert(fin[k] == medio[k]);
            } else {
                assert(fin[k] == medio[k + 1]);
            }
        }
    }
}

/// Quitar de un árbol la posición `i`, cuyo documento `x` no es padre de
/// nadie, y retirar `x` de las listas de hijos conserva las reglas del árbol.
#[verifier::spinoff_prover]
proof fn lemma_quitar_preserva(s: Seq<DocVista>, t: Seq<DocVista>, i: int, x: Id, n: Id)
    requires
        arbol_valido(s),
        ids_menores(s, n),
        x != 0,
        0 <= i < s.len(),
        s[i].id == x,
        t.len() == s.len() - 1,
        forall|k: int|
            0 <= k < t.len() ==> {
                &&& (#[trigger] t[k]).id == s[origen(k, i)].id
                &&& t[k].padre == s[origen(k, i)].padre
                &&& t[k].hijos.no_duplicates()
                &&& forall|c: Id| t[k].hijos.contains(c) <==> (s[origen(k, i)].hijos.contains(c) && c != x)
            },
        forall|j: int| 0 <= j < s.len() && s[j].id != 0 ==> #[trigger] s[j].padre != x,
    ensures
        arbol_valido(t),
        ids_menores(t, n),
{
    assert forall|m: int| 0 <= m < s.len() && m != i implies #[trigger] t[origen_inv(m, i)].id == s[m].id
        && t[origen_inv(m, i)].padre == s[m].padre by {
        assert(origen(origen_inv(m, i), i) == m);
    }
    assert forall|y: Id| tiene_id(s, y) && y != x implies tiene_id(t, y) by {
        let m = choose|m: int| 0 <= m < s.len() && s[m].id == y;
        assert(t[origen_inv(m, i)].id == y);
    }
    assert forall|c: Id, p: Id| #[trigger] apunta_a(t, c, p) <==> (apunta_a(s, c, p) && c != x) by {
        if apunta_a(t, c, p) {
            let j = choose|j: int| 0 <= j < t.len() && t[j].id == c && t[j].padre == p;
            assert(s[origen(j, i)].id == c && s[origen(j, i)].padre == p);
        }
        if apunta_a(s, c, p) && c != x {
            let m = choose|m: int| 0 <= m < s.len() && s[m].id == c && s[m].padre == p;
            assert(m != i);
            assert(t[origen_inv(m, i)].id == c);
        }
    }
    assert forall|k: int, c: Id| 0 <= k < t.len() implies (#[trigger] t[k].hijos.contains(c) <==> apunta_a(
        t,
        c,
        t[k].id,
    )) by {
        let m = origen(k, i);
        assert(s[m].hijos.contains(c) <==> apunta_a(s, c, s[m].id));
    }
    assert forall|i1: int, i2: int| 0 <= i1 < t.len() && 0 <= i2 < t.len() && #[trigger] t[i1].id
        == #[trigger] t[i2].id implies i1 == i2 by {
        assert(s[origen(i1, i)].id == s[origen(i2, i)].id);
    }
    assert forall|j: int| 0 <= j < t.len() && #[trigger] t[j].id != 0 implies tiene_id(t, t[j].padre) by {
        let m = origen(j, i);
        assert(s[m].id != 0);
        assert(tiene_id(s, s[m].padre));
    }
    assert(tiene_id(t, 0)) by {
        assert(tiene_id(s, 0));
    }
    assert forall|j: int| 0 <= j < t.len() && #[trigger] t[j].id == 0 implies t[j].padre == 0 by {
        assert(s[origen(j, i)].id == 0);
    }
    assert forall|j: int| 0 <= j < t.len() implies #[trigger] t[j].id < n by {
        assert(s[origen(j, i)].id < n);
    }
}

/// Borrar un documento que no es la raíz y no tiene hijos conserva las
/// reglas del árbol.
proof fn lemma_borrar_preserva(s: Seq<DocVista>, x: Id, n: Id)
    requires
        arbol_valido(s),
        ids_menores(s, n),
        x != 0,
        tiene_id(s, x),
        !tiene_hijos(s, x),
    ensures
        arbol_valido(tras_borrar(s, x)),
        ids_menores(tras_borrar(s, x), n),
{
    lemma_borrar_por_posicion(s, x);
    lemma_quitar_preserva(s, tras_borrar(s, x), indice_de(s, x), x, n);
}

/// Posición de `x` en `v`, que se sabe presente.
fn posicion_en(v: &Vec<Id>, x: Id) -> (r: usize)
    requires
        v@.contains(x),
    ensures
        r < v@.len(),
        v@[r as int] == x,
{
    let mut i: usize = 0;
    while v[i] != x
        invariant
            i < v@.len(),
            exists|k: int| i <= k < v@.len() && v@[k] == x,
        decreases v@.len() - i,
    {
        assert(i + 1 < v.len());
        i = i + 1;
    }
    i
}

/// El mayor identificador de `s` (`0` si está vacía).
pub open spec fn max_id(s: Seq<DocVista>) -> Id
    decreases s.len(),
{
    if s.len() == 0 {
        0
    } else if s.last().id > max_id(s.drop_last()) {
        s.last().id
    } else {
        max_id(s.drop_last())
    }
}

/// Una colección guardada que puede cargarse tal cual: cumple las reglas
/// del árbol y su mayor identificador deja sitio al siguiente.
pub open spec fn carga_aceptable(s: Seq<DocVista>) -> bool {
    arbol_valido(s) && ids_menores(s, u64::MAX)
}

/// La colección que sólo tiene la raíz.
pub open spec fn solo_raiz() -> Seq<DocVista> {
    seq![DocVista { id: 0, padre: 0, titulo: Seq::empty(), contenido: Seq::empty(), hijos: Seq::empty() }]
}

/// La colección con la que arranca el almacén a partir de lo que se leyó
/// del disco (`None` si no había nada legible).
pub open spec fn estado_cargado(cargado: Option<Seq<DocVista>>) -> Seq<DocVista> {
    match cargado {
        Some(s) => if carga_aceptable(s) {
            s
        } else {
            solo_raiz()
        },
        None => solo_raiz(),
    }
}

/// El valor inicial del contador tras la carga: el mayor identificador más
/// uno, o `1` si se arranca sólo con la raíz.
pub open spec fn contador_cargado(cargado: Option<Seq<DocVista>>) -> Id {
    match cargado {
        Some(s) => if carga_aceptable(s) {
            (max_id(s) + 1) as Id
        } else {
            1
        },
        None => 1,
    }
}

/// El mayor identificador es uno de los presentes y ninguno lo supera.
proof fn lemma_max_id(s: Seq<DocVista>)
    requires
        s.len() > 0,
    ensures
        forall|i: int| 0 <= i < s.len() ==> #[trigger] s[i].id <= max_id(s),
        tiene_id(s, max_id(s)),
    decreases s.len(),
{
    let p = s.drop_last();
    if p.len() > 0 {
        lemma_max_id(p);
        assert forall|i: int| 0 <= i < s.len() implies #[trigger] s[i].id <= max_id(s) by {
            if i < p.len() {
                assert(p[i].id == s[i].id);
            }
        }
        if s.last().id <= max_id(p) {
            let k = choose|k: int| 0 <= k < p.len() && p[k].id == max_id(p);
            assert(s[k].id == max_id(s));
        } else {
            assert(s[s.len() - 1].id == max_id(s));
        }
    } else {
        assert(max_id(p) == 0);
        assert(s.last() == s[0]);
    }
}

/// Guardar la colección (`instantanea`) y volver a cargarla
/// (`prepara_estado_inicial`), como en un reinicio, devuelve el mismo árbol,
/// y el contador recargado sigue por encima de todos sus identificadores.
pub proof fn lemma_ida_y_vuelta(d: &Documentos)
    requires
        d.wf(),
    ensures
        estado_cargado(Some(d@)) == d@,
        ids_menores(estado_cargado(Some(d@)), contador_cargado(Some(d@))),
{
    let s = d@;
    assert forall|i: int| 0 <= i < s.len() implies #[trigger] s[i].id < u64::MAX by {
        assert(s[i].id < d.siguiente_id());
    }
    lemma_max_id(s);
}

/// Si algún documento de `v` tiene el identificador `x`.
fn busca_id(v: &Vec<Documento>, x: Id) -> (r: bool)
    ensures
        r == tiene_id(vista_de(v@), x),
{
    let ghost s = vista_de(v@);
    let mut i: usize = 0;
    while i < v.len()
        invariant
            i <= v@.len(),
            s == vista_de(v@),
            forall|k: int| 0 <= k < i ==> s[k].id != x,
        decreases v@.len() - i,
    {
        if v[i].id == x {
            assert(s[i as int].id == x);
            return true;
        }
        i = i + 1;
    }
    false
}

/// Si `c`, que no es la raíz, es un documento de `v` con padre `p`.
fn apunta_exec(v: &Vec<Documento>, c: Id, p: Id) -> (r: bool)
    ensures
        r == apunta_a(vista_de(v@), c, p),
{
    if c == 0 {
        return false;
    }
    let ghost s = vista_de(v@);
    let mut i: usize = 0;
    while i < v.len()
        invariant
            i <= v@.len(),
            c != 0,
            s == vista_de(v@),
            forall|k: int| 0 <= k < i ==> !(s[k].id == c && s[k].padre == p),
        decreases v@.len() - i,
    {
        if v[i].id == c && v[i].padre == p {
            assert(s[i as int].id == c && s[i as int].padre == p);
            return true;
        }
        i = i + 1;
    }
    false
}

/// Si `x` está en `h`.
fn contiene(h: &Vec<Id>, x: Id) -> (r: bool)
    ensures
        r == h@.contains(x),
{
    let mut i: usize = 0;
    while i < h.len()
        invariant
            i <= h@.len(),
            forall|k: int| 0 <= k < i ==> h@[k] != x,
        decreases h@.len() - i,
    {
        if h[i] == x {
            assert(h@[i as int] == x);
            return true;
        }
        i = i + 1;
    }
    false
}

/// Si `h` no repite elementos.
fn sin_repetidos(h: &Vec<Id>) -> (r: bool)
    ensures
        r == h@.no_duplicates(),
{
    let mut i: usize = 0;
    while i < h.len()
        invariant
            i <= h@.len(),
            forall|a: int, b: int| 0 <= a < i && 0 <= b < h@.len() && a != b ==> h@[a] != h@[b],
        decreases h@.len() - i,
    {
        let mut j: usize = 0;
        while j < h.len()
            invariant
                i < h@.len(),
                j <= h@.len(),
                forall|a: int, b: int| 0 <= a < i && 0 <= b < h@.len() && a != b ==> h@[a] != h@[b],
                forall|b: int| 0 <= b < j && b != i ==> h@[i as int] != h@[b],
            decreases h@.len() - j,
        {
            if j != i && h[i] == h[j] {
                assert(!h@.no_duplicates());
                return false;
            }
            j = j + 1;
        }
        i = i + 1;
    }
    true
}

/// Si ningún identificador se repite en `v`.
fn ids_unicos_exec(v: &Vec<Documento>) -> (r: bool)
    ensures
        r == ids_unicos(vista_de(v@)),
{
    let ghost s = vista_de(v@);
    let mut i: usize = 0;
    while i < v.len()
        invariant
            i <= v@.len(),
            s == vista_de(v@),
            forall|a: int, b: int| 0 <= a < i && 0 <= b < s.len() && a != b ==> s[a].id != s[b].id,
        decreases v@.len() - i,
    {
        let mut j: usize = 0;
        while j < v.len()
            invariant
                i < v@.len(),
                j <= v@.len(),
                s == vista_de(v@),
                forall|a: int, b: int| 0 <= a < i && 0 <= b < s.len() && a != b ==> s[a].id != s[b].id,
                forall|b: int| 0 <= b < j && b != i ==> s[i as int].id != s[b].id,
            decreases v@.len() - j,
        {
            if j != i && v[i].id == v[j].id {
                assert(s[i as int].id == s[j as int].id);
                return false;
            }
            j = j + 1;
        }
        i = i + 1;
    }
    true
}

/// Si `v` tiene raíz y todo documento con identificador `0` es su propio padre.
fn raiz_presente_exec(v: &Vec<Documento>) -> (r: bool)
    ensures
        r == raiz_presente(vista_de(v@)),
{
    let ghost s = vista_de(v@);
    let mut hay_raiz = false;
    let mut i: usize = 0;
    while i < v.len()
        invariant
            i <= v@.len(),
            s == vista_de(v@),
            hay_raiz == exists|k: int| 0 <= k < i && #[trigger] s[k].id == 0,
            forall|k: int| 0 <= k < i && #[trigger] s[k].id == 0 ==> s[k].padre == 0,
        decreases v@.len() - i,
    {
        if v[i].id == 0 {
            if v[i].padre != 0 {
                assert(s[i as int].id == 0 && s[i as int].padre != 0);
                return false;
            }
            assert(s[i as int].id == 0);
            hay_raiz = true;
        }
        i = i + 1;
    }
    hay_raiz
}

/// Si el padre de cada documento de `v` que no es la raíz está en `v`.
fn padres_existen_exec(v: &Vec<Documento>) -> (r: bool)
    ensures
        r == padres_existen(vista_de(v@)),
{
    let ghost s = vista_de(v@);
    let mut i: usize = 0;
    while i < v.len()
        invariant
            i <= v@.len(),
            s == vista_de(v@),
            forall|k: int| 0 <= k < i && #[trigger] s[k].id != 0 ==> tiene_id(s, s[k].padre),
        decreases v@.len() - i,
    {
        if v[i].id != 0 && !busca_id(v, v[i].padre) {
            assert(s[i as int].id != 0);
            return false;
        }
        i = i + 1;
    }
    true
}

/// Si las listas de hijos de `v` no repiten elementos y concuerdan con los
/// padres de los documentos.
fn hijos_exactos_exec(v: &Vec<Documento>) -> (r: bool)
    ensures
        r == hijos_exactos(vista_de(v@)),
{
    let ghost s = vista_de(v@);
    let mut i: usize = 0;
    while i < v.len()
        invariant
            i <= v@.len(),
            s == vista_de(v@),
            forall|k: int| 0 <= k < i ==> (#[trigger] s[k].hijos).no_duplicates(),
            forall|k: int, c: Id|
                0 <= k < i ==> (#[trigger] s[k].hijos.contains(c) <==> apunta_a(s, c, s[k].id)),
        decreases v@.len() - i,
    {
        let h = &v[i].hijos;
        let p = v[i].id;
        if !sin_repetidos(h) {
            assert(!(s[i as int].hijos).no_duplicates());
            return false;
        }
        // cada hijo apunta a este documento
        let mut a: usize = 0;
        while a < h.len()
            invariant
                i < v@.len(),
                a <= h@.len(),
                s == vista_de(v@),
                h@ == s[i as int].hijos,
                p == s[i as int].id,
                forall|b: int| 0 <= b < a ==> apunta_a(s, #[trigger] h@[b], p),
            decreases h@.len() - a,
        {
            if !apunta_exec(v, h[a], p) {
                assert(s[i as int].hijos.contains(h@[a as int]));
                return false;
            }
            a = a + 1;
        }
        // cada documento que apunta a este está en la lista
        let mut j: usize = 0;
        while j < v.len()
            invariant
                i < v@.len(),
                j <= v@.len(),
                s == vista_de(v@),
                h@ == s[i as int].hijos,
                p == s[i as int].id,
                forall|b: int| 0 <= b < j && s[b].id != 0 && #[trigger] s[b].padre == p ==> h@.contains(s[b].id),
            decreases v@.len() - j,
        {
            if v[j].id != 0 && v[j].padre == p && !contiene(h, v[j].id) {
                assert(apunta_a(s, s[j as int].id, p));
                return false;
            }
            j = j + 1;
        }
        proof {
            assert forall|c: Id| #[trigger] h@.contains(c) <==> apunta_a(s, c, p) by {
                if h@.contains(c) {
                    let b = choose|b: int| 0 <= b < h@.len() && h@[b] == c;
                    assert(apunta_a(s, h@[b], p));
                }
                if apunta_a(s, c, p) {
                    let b = choose|b: int| 0 <= b < s.len() && s[b].id == c && s[b].padre == p;
                    assert(s[b].padre == p);
                }
            }
        }
        i = i + 1;
    }
    true
}

/// Si todos los identificadores de `v` son menores que `n`.
fn ids_menores_exec(v: &Vec<Documento>, n: Id) -> (r: bool)
    ensures
        r == ids_menores(vista_de(v@), n),
{
    let ghost s = vista_de(v@);
    let mut i: usize = 0;
    while i < v.len()
        invariant
            i <= v@.len(),
            s == vista_de(v@),
            forall|k: int| 0 <= k < i ==> #[trigger] s[k].id < n,
        decreases v@.len() - i,
    {
        if v[i].id >= n {
            assert(s[i as int].id >= n);
            return false;
        }
        i = i + 1;
    }
    true
}

/// El mayor identificador de `v`.
fn max_id_exec(v: &Vec<Documento>) -> (r: Id)
    ensures
        r == max_id(vista_de(v@)),
{
    let ghost s = vista_de(v@);
    let mut m: Id = 0;
    let mut i: usize = 0;
    while i < v.len()
        invariant
            i <= v@.len(),
            s == vista_de(v@),
            m == max_id(s.take(i as int)),
        decreases v@.len() - i,
    {
        proof {
            assert(s.take(i + 1).drop_last() =~= s.take(i as int));
            assert(s.take(i + 1).last() == s[i as int]);
        }
        if v[i].id > m {
            m = v[i].id;
        }
        i = i + 1;
    }
    assert(s.take(i as int) =~= s);
    m
}

/// Si la colección leída puede cargarse tal cual.
fn es_carga_aceptable(v: &Vec<Documento>) -> (r: bool)
    ensures
        r == carga_aceptable(vista_de(v@)),
{
    raiz_presente_exec(v) && ids_unicos_exec(v) && padres_existen_exec(v) && hijos_exactos_exec(v)
        && ids_menores_exec(v, u64::MAX)
}

/// Prepara la colección de arranque a partir de lo leído del disco: la
/// colección leída si cumple las reglas del árbol, o si no (o si no se
/// leyó nada) sólo la raíz. El contador sigue al mayor identificador.
pub fn prepara_estado_inicial(cargado: Option<Vec<Documento>>) -> (r: Documentos)
    ensures
        r.wf(),
        r@ == estado_cargado(
            match cargado {
                Some(v) => Some(vista_de(v@)),
                None => None,
            },
        ),
        r.siguiente_id() == contador_cargado(
            match cargado {
                Some(v) => Some(vista_de(v@)),
                None => None,
            },
        ),
{
    if let Some(v) = cargado {
        if es_carga_aceptable(&v) {
            let m = max_id_exec(&v);
            proof {
                lemma_max_id(vista_de(v@));
                let k = choose|k: int| 0 <= k < vista_de(v@).len() && vista_de(v@)[k].id == m;
                assert(vista_de(v@)[k].id < u64::MAX);
            }
            let r = Documentos { lista: v, contador: ContadorIds::nuevo(m + 1) };
            proof {
                assert forall|i: int| 0 <= i < r@.len() implies #[trigger] r@[i].id < r.siguiente_id() by {
                    assert(r@[i].id <= m);
                }
            }
            return r;
        }
    }
    let raiz = Documento { id: 0, padre: 0, titulo: String::new(), contenido: String::new(), hijos: Vec::new() };
    let mut lista: Vec<Documento> = Vec::new();
    lista.push(raiz);
    let r = Documentos { lista, contador: ContadorIds::nuevo(1) };
    proof {
        assert(r@ =~= solo_raiz());
        assert(r@[0].id == 0);
        assert(r@[0].hijos =~= Seq::<Id>::empty());
        assert forall|c: Id| !apunta_a(r@, c, 0) by {}
    }
    r
}

/// Coherencia del árbol en cualquier estado que alcancen las operaciones: el
/// padre de cada documento que no es la raíz existe, y la lista de hijos de
/// ese padre contiene exactamente los documentos que lo tienen por padre.
pub proof fn lemma_coherencia(d: &Documentos)
    requires
        d.wf(),
    ensures
        forall|j: int|
            0 <= j < d@.len() && #[trigger] d@[j].id != 0 ==> {
                &&& tiene_id(d@, d@[j].padre)
                &&& doc_de(d@, d@[j].padre).id == d@[j].padre
                &&& forall|c: Id|
                    doc_de(d@, d@[j].padre).hijos.contains(c) <==> apunta_a(d@, c, d@[j].padre)
            },
{
    let s = d@;
    assert forall|j: int| 0 <= j < s.len() && #[trigger] s[j].id != 0 implies {
        &&& tiene_id(s, s[j].padre)
        &&& doc_de(s, s[j].padre).id == s[j].padre
        &&& forall|c: Id| doc_de(s, s[j].padre).hijos.contains(c) <==> apunta_a(s, c, s[j].padre)
    } by {
        assert(tiene_id(s, s[j].padre));
        let i = indice_de(s, s[j].padre);
        assert forall|c: Id| s[i].hijos.contains(c) <==> apunta_a(s, c, s[i].id) by {}
    }
}

/// La colección de documentos con su contador de identificadores.
pub struct Documentos {
    lista: Vec<Documento>,
    contador: ContadorIds,
}

impl View for Documentos {
    type V = Seq<DocVista>;

    closed spec fn view(&self) -> Seq<DocVista> {
        vista_de(self.lista@)
    }
}

impl Documentos {
    /// El identificador que recibirá el próximo documento creado.
    pub closed spec fn siguiente_id(&self) -> Id {
        self.contador.siguiente()
    }

    /// Consulta el próximo identificador sin consumirlo.
    pub fn siguiente(&self) -> (r: Id)
        ensures
            r == self.siguiente_id(),
    {
        self.contador.consulta()
    }

    /// La colección cumple las reglas del árbol y todos sus identificadores
    /// son anteriores al contador.
    pub open spec fn wf(&self) -> bool {
        arbol_valido(self@) && ids_menores(self@, self.siguiente_id())
    }

    /// Posición en la lista del documento con identificador `id`.
    fn posicion(&self, id: Id) -> (r: Option<usize>)
        ensures
            match r {
                Some(i) => i < self@.len() && self@[i as int].id == id,
                None => !tiene_id(self@, id),
            },
    {
        let mut i: usize = 0;
        while i < self.lista.len()
            invariant
                i <= self.lista@.len(),
                forall|k: int| 0 <= k < i ==> self@[k].id != id,
            decreases self.lista@.len() - i,
        {
            if self.lista[i].id == id {
                return Some(i);
            }
            i = i + 1;
        }
        None
    }

    /// Sustituye el título y el contenido del documento `id`. El padre y la
    /// lista de hijos no cambian: esta operación nunca mueve un documento.
    pub fn cambia_documento(&mut self, _editor: &Editor, id: Id, titulo: String, contenido: String) -> (r: Result<
        Documento,
        Fallo,
    >)
        requires
            old(self).wf(),
        ensures
            final(self).wf(),
            final(self).siguiente_id() == old(self).siguiente_id(),
            r is Ok <==> tiene_id(old(self)@, id),
            r matches Ok(d) ==> final(self)@ == tras_cambiar(old(self)@, id, titulo@, contenido@)
                && d@ == doc_de(final(self)@, id),
            r matches Err(e) ==> e == Fallo::NoEncontrado && final(self)@ == old(self)@,
    {
        let i = match self.posicion(id) {
            Some(i) => i,
            None => return Err(Fallo::NoEncontrado),
        };
        let ghost antes = self@;
        self.lista[i].titulo = titulo;
        self.lista[i].contenido = contenido;
        proof {
            assert(self@ =~= tras_cambiar(antes, id, titulo@, contenido@));
            lemma_cambiar_preserva(antes, id, titulo@, contenido@, self.siguiente_id());
        }
        let d = self.lista[i].clone();
        proof {
            assert(self@[i as int].id == id);
            assert(tiene_id(self@, id));
            let j = indice_de(self@, id);
            assert(self@[j].id == self@[i as int].id);
        }
        Ok(d)
    }

    /// Crea un documento bajo `padre` y devuelve su identificador, que es el
    /// valor del contador. Si el padre no existe no se consume ningún
    /// identificador.
    pub fn crea_documento(&mut self, _editor: &Editor, padre: Id, titulo: String, contenido: String) -> (r: Result<
        Id,
        Fallo,
    >)
        requires
            old(self).wf(),
            old(self).siguiente_id() < u64::MAX,
        ensures
            final(self).wf(),
            r is Ok <==> tiene_id(old(self)@, padre),
            r matches Ok(x) ==> x == old(self).siguiente_id() && final(self).siguiente_id() == x + 1
                && final(self)@ == tras_crear(old(self)@, x, padre, titulo@, contenido@),
            r matches Err(e) ==> e == Fallo::NoEncontrado && final(self)@ == old(self)@
                && final(self).siguiente_id() == old(self).siguiente_id(),
    {
        let ip = match self.posicion(padre) {
            Some(ip) => ip,
            None => return Err(Fallo::NoEncontrado),
        };
        let ghost antes = self@;
        let x = self.contador.lee_nuevo_id();
        self.lista[ip].hijos.push(x);
        let nuevo = Documento { id: x, padre, titulo, contenido, hijos: Vec::new() };
        self.lista.push(nuevo);
        proof {
            let t = tras_crear(antes, x, padre, titulo@, contenido@);
            assert forall|k: int| 0 <= k < antes.len() implies #[trigger] self@[k] == t[k] by {
                if antes[k].id == padre {
                    assert(k == ip);
                }
            }
            assert(self@ =~= t);
            lemma_crear_preserva(antes, x, padre, titulo@, contenido@);
        }
        Ok(x)
    }

    /// Posición del documento `id`, que se sabe presente.
    fn posicion_existente(&self, id: Id) -> (r: usize)
        requires
            tiene_id(self@, id),
        ensures
            r < self@.len(),
            self@[r as int].id == id,
    {
        let mut i: usize = 0;
        while self.lista[i].id != id
            invariant
                i < self.lista@.len(),
                exists|k: int| i <= k < self@.len() && #[trigger] self@[k].id == id,
            decreases self.lista@.len() - i,
        {
            assert(i + 1 < self.lista.len());
            i = i + 1;
        }
        i
    }

    /// Borra el documento `id`. Falla con `Prohibido` si es la raíz o si
    /// tiene hijos, y con `NoEncontrado` si no existe; en ambos casos el
    /// árbol queda intacto.
    pub fn borra_documento(&mut self, _editor: &Editor, id: Id) -> (r: Result<(), Fallo>)
        requires
            old(self).wf(),
        ensures
            final(self).wf(),
            final(self).siguiente_id() == old(self).siguiente_id(),
            r is Ok <==> (id != 0 && tiene_id(old(self)@, id) && !tiene_hijos(old(self)@, id)),
            r is Ok ==> final(self)@ == tras_borrar(old(self)@, id),
            r matches Err(e) ==> final(self)@ == old(self)@ && e == (if id != 0 && !tiene_id(
                old(self)@,
                id,
            ) {
                Fallo::NoEncontrado
            } else {
                Fallo::Prohibido
            }),
    {
        if id == 0 {
            return Err(Fallo::Prohibido);
        }
        let i = match self.posicion(id) {
            Some(i) => i,
            None => return Err(Fallo::NoEncontrado),
        };
        if self.lista[i].hijos.len() != 0 {
            return Err(Fallo::Prohibido);
        }
        let ghost antes = self@;
        proof {
            assert(ids_unicos(antes));
            assert forall|k: int| 0 <= k < antes.len() && #[trigger] antes[k].id == id implies k == i by {}
            assert(!tiene_hijos(antes, id));
            assert(indice_de(antes, id) == i);
            assert(apunta_a(antes, id, antes[i as int].padre));
        }
        let padre = self.lista[i].padre;
        let ip = self.posicion_existente(padre);
        proof {
            assert(antes[ip as int].hijos.contains(id));
        }
        let p = posicion_en(&self.lista[ip].hijos, id);
        self.lista[ip].hijos.remove(p);
        let ghost medio = self@;
        proof {
            assert forall|k: int| 0 <= k < antes.len() && k != ip implies #[trigger] medio[k] == antes[k] by {}
            assert(medio[ip as int].hijos == antes[ip as int].hijos.remove(p as int));
        }
        self.lista.remove(i);
        proof {
            assert(self@ =~= medio.remove(i as int));
            lemma_solo_el_padre(antes, i as int, ip as int, id);
            lemma_borrar_resultado(antes, medio, self@, i as int, ip as int, p as int, id);
            lemma_borrar_preserva(antes, id, self.siguiente_id());
        }
        Ok(())
    }

    /// Copia de todos los documentos, en orden de inserción: lo que se
    /// guarda en disco tras cada cambio.
    pub fn instantanea(&self) -> (r: Vec<Documento>)
        ensures
            vista_de(r@) == self@,
    {
        let mut r: Vec<Documento> = Vec::new();
        let mut i: usize = 0;
        while i < self.lista.len()
            invariant
                i <= self.lista@.len(),
                r@.len() == i,
                forall|k: int| 0 <= k < i ==> r@[k]@ == self@[k],
            decreases self.lista@.len() - i,
        {
            r.push(self.lista[i].clone());
            i = i + 1;
        }
        assert(vista_de(r@) =~= self@);
        r
    }

    /// Lista de todos los documentos, en orden de inserción, para quien
    /// tiene el rol de edición.
    pub fn lee_documentos(&self, _editor: &Editor) -> (r: Vec<Documento>)
        ensures
            vista_de(r@) == self@,
    {
        self.instantanea()
    }

    /// Copia del documento con identificador `id`.
    pub fn lee_documento(&self, id: Id) -> (r: Result<Documento, Fallo>)
        requires
            self.wf(),
        ensures
            r is Ok <==> tiene_id(self@, id),
            r matches Ok(d) ==> d@ == doc_de(self@, id),
            r matches Err(e) ==> e == Fallo::NoEncontrado,
    {
        match self.posicion(id) {
            Some(i) => {
                let d = self.lista[i].clone();
                proof {
                    let j = indice_de(self@, id);
                    assert(self@[i as int].id == id);
                }
                Ok(d)
            },
            None => Err(Fallo::NoEncontrado),
        }
    }
}

/// Puntos de acceso de los documentos: listar, crear, leer, cambiar y borrar.
pub fn rutas() -> (r: Vec<Ruta>)
    ensures
        vista_rutas(r@) == seq![
            RutaVista { metodo: Metodo::Get, camino: "/documentos"@, rango: None },
            RutaVista { metodo: Metodo::Post, camino: "/documento"@, rango: None },
            RutaVista { metodo: Metodo::Get, camino: "/documento/<id>"@, rango: None },
            RutaVista { metodo: Metodo::Patch, camino: "/documento/<id>"@, rango: None },
            RutaVista { metodo: Metodo::Delete, camino: "/documento/<id>"@, rango: None },
        ],
{
    let mut r: Vec<Ruta> = Vec::new();
    r.push(ruta(Metodo::Get, "/documentos", None));
    r.push(ruta(Metodo::Post, "/documento", None));
    r.push(ruta(Metodo::Get, "/documento/<id>", None));
    r.push(ruta(Metodo::Patch, "/documento/<id>", None));
    r.push(ruta(Metodo::Delete, "/documento/<id>", None));
    assert(vista_rutas(r@) =~= seq![
            RutaVista { metodo: Metodo::Get, camino: "/documentos"@, rango: None },
        RutaVista { metodo: Metodo::Post, camino: "/documento"@, rango: None },
        RutaVista { metodo: Metodo::Get, camino: "/documento/<id>"@, rango: None },
        RutaVista { metodo: Metodo::Patch, camino: "/documento/<id>"@, rango: None },
        RutaVista { metodo: Metodo::Delete, camino: "/documento/<id>"@, rango: None },
    ]);
    r
}

} // verus!
