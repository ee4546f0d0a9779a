//! The acquisition cycle: what to do with the outcome of one collection.

use vstd::prelude::*;
use crate::difusion::{Ranura, RanuraModelo, tras_publicar, tras_publicar_todos};

verus! {

/// Seconds between two collections.
pub const INTERVALO_SEGUNDOS: u64 = 2;

/// What the driver of the cycle does next.
pub enum AccionCiclo {
    /// The snapshot was published: sleep for the interval.
    Dormir,
    /// The collection failed and nothing was published: report the error,
    /// then sleep for the interval.
    InformarYDormir(String),
}

/// The view of an action: the report as a sequence of characters.
pub enum AccionCicloModelo {
    Dormir,
    InformarYDormir(Seq<char>),
}

impl View for AccionCiclo {
    type V = AccionCicloModelo;

    open spec fn view(&self) -> AccionCicloModelo {
        match self {
            AccionCiclo::Dormir => AccionCicloModelo::Dormir,
            AccionCiclo::InformarYDormir(e) => AccionCicloModelo::InformarYDormir(e@),
        }
    }
}

/// The slot after one cycle: a snapshot is published, a failure leaves the
/// slot as it was.
pub open spec fn ranura_tras_ciclo(
    r: RanuraModelo,
    resultado: Result<Seq<char>, Seq<char>>,
) -> RanuraModelo {
    match resultado {
        Ok(json) => tras_publicar(r, json),
        Err(_) => r,
    }
}

/// The action after one cycle.
pub open spec fn accion_tras_ciclo(resultado: Result<Seq<char>, Seq<char>>) -> AccionCicloModelo {
    match resultado {
        Ok(_) => AccionCicloModelo::Dormir,
        Err(e) => AccionCicloModelo::InformarYDormir(e),
    }
}

/// The outcome of a collection as sequences of characters.
pub open spec fn vista_resultado(resultado: Result<String, String>) -> Result<
    Seq<char>,
    Seq<char>,
> {
    match resultado {
        Ok(json) => Ok(json@),
        Err(e) => Err(e@),
    }
}

/// One cycle of the acquisition loop. A collected snapshot is published
/// whole; a failed collection publishes nothing and is handed back to be
/// reported. Either way the loop goes on after the interval.
pub fn paso_adquisicion(ranura: &mut Ranura, resultado: Result<String, String>) -> (a: AccionCiclo)
    requires
        resultado.is_ok() ==> old(ranura)@.version < u64::MAX,
    ensures
        final(ranura)@ == ranura_tras_ciclo(old(ranura)@, vista_resultado(resultado)),
        a@ == accion_tras_ciclo(vista_resultado(resultado)),
{
    match resultado {
        Ok(json) => {
            ranura.publicar(json);
            AccionCiclo::Dormir
        },
        Err(error) => AccionCiclo::InformarYDormir(error),
    }
}

/// A failed cycle is never fatal and never publishes a partial snapshot:
/// the slot keeps its value and version, and the cycle after it publishes
/// as if the failure had not occurred.
pub proof fn fallo_no_publica(r: RanuraModelo, error: Seq<char>, json: Seq<char>)
    ensures
        ranura_tras_ciclo(r, Err(error)) == r,
        ranura_tras_ciclo(ranura_tras_ciclo(r, Err(error)), Ok(json)) == tras_publicar(r, json),
{
}

/// The slot after a run of cycles, in order.
pub open spec fn tras_ciclos(
    r: RanuraModelo,
    resultados: Seq<Result<Seq<char>, Seq<char>>>,
) -> RanuraModelo
    decreases resultados.len(),
{
    if resultados.len() == 0 {
        r
    } else {
        ranura_tras_ciclo(tras_ciclos(r, resultados.drop_last()), resultados.last())
    }
}

/// The snapshots among the outcomes of a run of cycles, in order.
pub open spec fn exitos(resultados: Seq<Result<Seq<char>, Seq<char>>>) -> Seq<Seq<char>>
    decreases resultados.len(),
{
    if resultados.len() == 0 {
        Seq::empty()
    } else {
        match resultados.last() {
            Ok(json) => exitos(resultados.drop_last()).push(json),
            Err(_) => exitos(resultados.drop_last()),
        }
    }
}

/// What a run of cycles publishes is exactly its collected snapshots, each
/// once and in the order of the cycles; the failed cycles leave no trace.
pub proof fn ciclos_publican_los_exitos(
    r: RanuraModelo,
    resultados: Seq<Result<Seq<char>, Seq<char>>>,
)
    ensures
        tras_ciclos(r, resultados) == tras_publicar_todos(r, exitos(resultados)),
    decreases resultados.len(),
{
    if resultados.len() > 0 {
        ciclos_publican_los_exitos(r, resultados.drop_last());
        match resultados.last() {
            Ok(json) => {
                let previos = exitos(resultados.drop_last());
                assert(previos.push(json).drop_last() =~= previos);
            },
            Err(_) => {},
        }
    }
}

/// Three successful cycles publish their three snapshots in order, and the
/// slot then holds the third.
pub proof fn tres_ciclos_en_orden(r: RanuraModelo, j1: Seq<char>, j2: Seq<char>, j3: Seq<char>)
    ensures
        exitos(seq![Ok(j1), Ok(j2), Ok(j3)]) == seq![j1, j2, j3],
        tras_ciclos(r, seq![Ok(j1), Ok(j2), Ok(j3)]) == tras_publicar(
            tras_publicar(tras_publicar(r, j1), j2),
            j3,
        ),
        tras_ciclos(r, seq![Ok(j1), Ok(j2), Ok(j3)]).valor == j3,
        tras_ciclos(r, seq![Ok(j1), Ok(j2), Ok(j3)]).version == r.version + 3,
{
    let uno: Seq<Result<Seq<char>, Seq<char>>> = seq![Ok(j1)];
    let dos: Seq<Result<Seq<char>, Seq<char>>> = seq![Ok(j1), Ok(j2)];
    let tres: Seq<Result<Seq<char>, Seq<char>>> = seq![Ok(j1), Ok(j2), Ok(j3)];
    assert(uno.drop_last() =~= Seq::empty());
    assert(dos.drop_last() =~= uno);
    assert(tres.drop_last() =~= dos);
    assert(tras_ciclos(r, uno.drop_last()) == r);
    assert(tras_ciclos(r, uno) == tras_publicar(r, j1));
    assert(tras_ciclos(r, dos) == tras_publicar(tras_publicar(r, j1), j2));
    assert(exitos(uno.drop_last()) =~= Seq::<Seq<char>>::empty());
    assert(exitos(uno) =~= seq![j1]);
    assert(exitos(dos) =~= seq![j1, j2]);
    assert(exitos(tres) =~= seq![j1, j2, j3]);
}

} // verus!
