//! The pipeline as a whole: one slot, its producer and any number of
//! viewer connections, advancing one step at a time in any interleaving.

use vstd::prelude::*;
use crate::adquisicion::{ranura_tras_ciclo, tras_ciclos};
use crate::conexion::{AccionConexionModelo, ConexionModelo, EventoConexion, siguiente_conexion};
use crate::difusion::{
    RanuraModelo,
    ranura_inicial,
    tras_publicar_todos,
    version_tras_publicar_todos,
};

verus! {

/// One viewer: its connection, the slot's version when it obtained its
/// cursor, and the messages handed to its transport so far, in order.
pub struct ClienteModelo {
    pub conexion: ConexionModelo,
    pub origen: nat,
    pub enviados: Seq<Seq<char>>,
}

/// The pipeline: every value published so far, in order, and the viewers.
pub struct SistemaModelo {
    pub publicados: Seq<Seq<char>>,
    pub clientes: Seq<ClienteModelo>,
}

/// One step of the pipeline.
pub enum PasoSistema {
    /// The producer ends a cycle with this outcome.
    Ciclo(Result<Seq<char>, Seq<char>>),
    /// A viewer is accepted.
    Alta,
    /// The viewer at this position meets this event.
    Cliente(int, EventoConexion),
}

/// The slot that has seen these publications.
pub open spec fn ranura_de(publicados: Seq<Seq<char>>) -> RanuraModelo {
    tras_publicar_todos(ranura_inicial(), publicados)
}

/// A viewer after one event of its connection.
pub open spec fn cliente_tras_evento(
    cl: ClienteModelo,
    r: RanuraModelo,
    e: EventoConexion,
) -> ClienteModelo {
    ClienteModelo {
        conexion: siguiente_conexion(cl.conexion, r, e).0,
        origen: if cl.conexion is Negociando && e == EventoConexion::NegociacionCorrecta {
            r.version
        } else {
            cl.origen
        },
        enviados: match siguiente_conexion(cl.conexion, r, e).1 {
            AccionConexionModelo::Enviar(v) => cl.enviados.push(v),
            _ => cl.enviados,
        },
    }
}

/// The pipeline before anything happened.
pub open spec fn sistema_inicial() -> SistemaModelo {
    SistemaModelo { publicados: Seq::empty(), clientes: Seq::empty() }
}

/// The pipeline after one step.
pub open spec fn tras_paso(s: SistemaModelo, p: PasoSistema) -> SistemaModelo {
    match p {
        PasoSistema::Ciclo(Ok(json)) => SistemaModelo {
            publicados: s.publicados.push(json),
            clientes: s.clientes,
        },
        PasoSistema::Ciclo(Err(_)) => s,
        PasoSistema::Alta => SistemaModelo {
            publicados: s.publicados,
            clientes: s.clientes.push(
                ClienteModelo {
                    conexion: ConexionModelo::Negociando,
                    origen: 0,
                    enviados: Seq::empty(),
                },
            ),
        },
        PasoSistema::Cliente(i, e) => if 0 <= i < s.clientes.len() {
            SistemaModelo {
                publicados: s.publicados,
                clientes: s.clientes.update(
                    i,
                    cliente_tras_evento(s.clientes[i], ranura_de(s.publicados), e),
                ),
            }
        } else {
            s
        },
    }
}

/// The pipeline after a run of steps, in order.
pub open spec fn tras_pasos(s: SistemaModelo, pasos: Seq<PasoSistema>) -> SistemaModelo
    decreases pasos.len(),
{
    if pasos.len() == 0 {
        s
    } else {
        tras_paso(tras_pasos(s, pasos.drop_last()), pasos.last())
    }
}

/// The outcomes of the producer's cycles among a run of steps, in order.
pub open spec fn ciclos_de(pasos: Seq<PasoSistema>) -> Seq<Result<Seq<char>, Seq<char>>>
    decreases pasos.len(),
{
    if pasos.len() == 0 {
        Seq::empty()
    } else {
        match pasos.last() {
            PasoSistema::Ciclo(resultado) => ciclos_de(pasos.drop_last()).push(resultado),
            _ => ciclos_de(pasos.drop_last()),
        }
    }
}

/// Whether `m` was published at or after version `origen`.
pub open spec fn publicado_desde(publicados: Seq<Seq<char>>, origen: nat, m: Seq<char>) -> bool {
    exists|k: int| origen <= k < publicados.len() && #[trigger] publicados[k] == m
}

/// A cursor at `vista` agrees with what its viewer was sent: nothing if the
/// cursor has not moved, else last the value published as version `vista`.
pub open spec fn cursor_coherente(cl: ClienteModelo, publicados: Seq<Seq<char>>, vista: nat) -> bool {
    &&& cl.origen <= vista <= publicados.len()
    &&& vista == cl.origen ==> cl.enviados.len() == 0
    &&& vista > cl.origen ==> cl.enviados.len() > 0 && cl.enviados.last() == publicados[vista - 1]
}

/// A viewer agrees with the publications: every message it was sent is a
/// value published since it obtained its cursor, and its cursor agrees
/// with the last of them.
pub open spec fn cliente_coherente(cl: ClienteModelo, publicados: Seq<Seq<char>>) -> bool {
    &&& forall|k: int|
        0 <= k < cl.enviados.len() ==> publicado_desde(
            publicados,
            cl.origen,
            #[trigger] cl.enviados[k],
        )
    &&& match cl.conexion {
        ConexionModelo::Negociando => cl.enviados.len() == 0,
        ConexionModelo::Esperando(vista) => cursor_coherente(cl, publicados, vista),
        ConexionModelo::Enviando(vista) => cursor_coherente(cl, publicados, vista),
        ConexionModelo::Cerrada => true,
    }
}

/// Every viewer of the pipeline agrees with its publications.
pub open spec fn sistema_coherente(s: SistemaModelo) -> bool {
    forall|i: int|
        0 <= i < s.clientes.len() ==> cliente_coherente(#[trigger] s.clientes[i], s.publicados)
}

/// A cycle changes the slot as the acquisition step says, and changes no
/// viewer; it takes no viewer into account.
pub proof fn ciclo_ignora_a_los_clientes(s: SistemaModelo, resultado: Result<Seq<char>, Seq<char>>)
    ensures
        ranura_de(tras_paso(s, PasoSistema::Ciclo(resultado)).publicados) == ranura_tras_ciclo(
            ranura_de(s.publicados),
            resultado,
        ),
        tras_paso(s, PasoSistema::Ciclo(resultado)).clientes == s.clientes,
{
    match resultado {
        Ok(json) => {
            assert(s.publicados.push(json).drop_last() =~= s.publicados);
        },
        Err(_) => {},
    }
}

/// What happens to one viewer, a failed send included, changes neither the
/// publications nor any other viewer.
pub proof fn evento_de_cliente_aislado(s: SistemaModelo, i: int, e: EventoConexion, j: int)
    requires
        0 <= j < s.clientes.len(),
        j != i,
    ensures
        tras_paso(s, PasoSistema::Cliente(i, e)).publicados == s.publicados,
        tras_paso(s, PasoSistema::Cliente(i, e)).clientes.len() == s.clientes.len(),
        tras_paso(s, PasoSistema::Cliente(i, e)).clientes[j] == s.clientes[j],
{
}

/// Whatever the viewers do in between, the slot after a run of steps is the
/// slot after the producer's cycles alone.
pub proof fn ranura_solo_depende_de_los_ciclos(s: SistemaModelo, pasos: Seq<PasoSistema>)
    ensures
        ranura_de(tras_pasos(s, pasos).publicados) == tras_ciclos(
            ranura_de(s.publicados),
            ciclos_de(pasos),
        ),
    decreases pasos.len(),
{
    if pasos.len() > 0 {
        ranura_solo_depende_de_los_ciclos(s, pasos.drop_last());
        let previo = tras_pasos(s, pasos.drop_last());
        match pasos.last() {
            PasoSistema::Ciclo(resultado) => {
                ciclo_ignora_a_los_clientes(previo, resultado);
                let antes = ciclos_de(pasos.drop_last());
                assert(antes.push(resultado).drop_last() =~= antes);
            },
            _ => {},
        }
    }
}

proof fn publicar_conserva(cl: ClienteModelo, publicados: Seq<Seq<char>>, json: Seq<char>)
    requires
        cliente_coherente(cl, publicados),
    ensures
        cliente_coherente(cl, publicados.push(json)),
{
    let despues = publicados.push(json);
    assert forall|k: int| 0 <= k < cl.enviados.len() implies publicado_desde(
        despues,
        cl.origen,
        #[trigger] cl.enviados[k],
    ) by {
        assert(publicado_desde(publicados, cl.origen, cl.enviados[k]));
        let w = choose|w: int|
            cl.origen <= w < publicados.len() && #[trigger] publicados[w] == cl.enviados[k];
        assert(despues[w] == cl.enviados[k]);
    }
}

proof fn evento_conserva(cl: ClienteModelo, publicados: Seq<Seq<char>>, e: EventoConexion)
    requires
        cliente_coherente(cl, publicados),
    ensures
        cliente_coherente(cliente_tras_evento(cl, ranura_de(publicados), e), publicados),
{
    version_tras_publicar_todos(ranura_inicial(), publicados);
    let r = ranura_de(publicados);
    let d = cliente_tras_evento(cl, r, e);
    assert forall|k: int| 0 <= k < d.enviados.len() implies publicado_desde(
        publicados,
        d.origen,
        #[trigger] d.enviados[k],
    ) by {
        if k < cl.enviados.len() {
            assert(d.enviados[k] == cl.enviados[k]);
            assert(publicado_desde(publicados, cl.origen, cl.enviados[k]));
        } else {
            assert(publicados[publicados.len() - 1] == d.enviados[k]);
        }
    }
}

/// Every step of the pipeline keeps every viewer in agreement with the
/// publications.
pub proof fn paso_conserva_coherencia(s: SistemaModelo, p: PasoSistema)
    requires
        sistema_coherente(s),
    ensures
        sistema_coherente(tras_paso(s, p)),
{
    let t = tras_paso(s, p);
    assert forall|i: int| 0 <= i < t.clientes.len() implies cliente_coherente(
        #[trigger] t.clientes[i],
        t.publicados,
    ) by {
        match p {
            PasoSistema::Ciclo(Ok(json)) => {
                assert(cliente_coherente(s.clientes[i], s.publicados));
                publicar_conserva(s.clientes[i], s.publicados, json);
            },
            PasoSistema::Ciclo(Err(_)) => {
                assert(cliente_coherente(s.clientes[i], s.publicados));
            },
            PasoSistema::Alta => {
                if i < s.clientes.len() {
                    assert(cliente_coherente(s.clientes[i], s.publicados));
                }
            },
            PasoSistema::Cliente(n, e) => {
                assert(cliente_coherente(s.clientes[i], s.publicados));
                if 0 <= n < s.clientes.len() && i == n {
                    evento_conserva(s.clientes[i], s.publicados, e);
                }
            },
        }
    }
}

/// In every interleaving of cycles, arrivals and connection events, every
/// message that a viewer is sent is a value that was published after the
/// viewer obtained its cursor, and a cursor that has moved stands at the
/// version of the last message sent.
pub proof fn toda_traza_es_coherente(pasos: Seq<PasoSistema>)
    ensures
        sistema_coherente(tras_pasos(sistema_inicial(), pasos)),
    decreases pasos.len(),
{
    if pasos.len() > 0 {
        toda_traza_es_coherente(pasos.drop_last());
        paso_conserva_coherencia(tras_pasos(sistema_inicial(), pasos.drop_last()), pasos.last());
    }
}

/// Once publishing pauses, a viewer that obtained its cursor before the
/// last publication and whose sends succeed ends with the last published
/// value as its last message: either it has it already, or its next look
/// at the slot sends it.
pub proof fn al_pausar_recibe_lo_ultimo(cl: ClienteModelo, publicados: Seq<Seq<char>>)
    requires
        cliente_coherente(cl, publicados),
        cl.origen < publicados.len(),
        cl.conexion is Esperando || cl.conexion is Enviando,
    ensures
        ({
            let evento = if cl.conexion is Esperando {
                EventoConexion::Aviso
            } else {
                EventoConexion::EnvioCorrecto
            };
            let d = cliente_tras_evento(cl, ranura_de(publicados), evento);
            &&& d.enviados.len() > 0
            &&& d.enviados.last() == publicados.last()
            &&& (d.conexion == ConexionModelo::Esperando(publicados.len())
                || d.conexion == ConexionModelo::Enviando(publicados.len()))
        }),
{
    version_tras_publicar_todos(ranura_inicial(), publicados);
}

} // verus!
