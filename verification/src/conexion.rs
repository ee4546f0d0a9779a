//! One viewer connection: from the handshake to the end of the stream.

use vstd::prelude::*;
use crate::difusion::{Ranura, RanuraModelo, Suscripcion, cambio_pendiente, tras_publicar};

verus! {

/// What happened on the connection since the last step.
#[derive(Clone, Copy, Debug, PartialEq, Eq, Structural)]
pub enum EventoConexion {
    /// The handshake succeeded.
    NegociacionCorrecta,
    /// The handshake failed.
    NegociacionFallida,
    /// The slot may have advanced.
    Aviso,
    /// The last message was accepted by the transport.
    EnvioCorrecto,
    /// The last message could not be sent.
    EnvioFallido,
    /// The slot is gone: its producer has ended and nothing more will be
    /// published.
    RanuraCerrada,
}

/// What the driver of the connection does next.
pub enum AccionConexion {
    /// Wait until the slot advances.
    Esperar,
    /// Send this value as one text message.
    Enviar(String),
    /// Tear this connection down.
    Cerrar,
    /// The event does not belong to the current state: nothing to do.
    Ignorar,
}

/// The view of an action.
pub enum AccionConexionModelo {
    Esperar,
    Enviar(Seq<char>),
    Cerrar,
    Ignorar,
}

impl View for AccionConexion {
    type V = AccionConexionModelo;

    open spec fn view(&self) -> AccionConexionModelo {
        match self {
            AccionConexion::Esperar => AccionConexionModelo::Esperar,
            AccionConexion::Enviar(v) => AccionConexionModelo::Enviar(v@),
            AccionConexion::Cerrar => AccionConexionModelo::Cerrar,
            AccionConexion::Ignorar => AccionConexionModelo::Ignorar,
        }
    }
}

/// The state of a connection. Once the handshake is done it owns a cursor
/// into the slot, shared with no other connection.
#[derive(Clone, Copy, Debug)]
pub enum Conexion {
    /// Accepted, handshake not finished.
    Negociando,
    /// Waiting for the slot to advance.
    Esperando(Suscripcion),
    /// A message is on its way.
    Enviando(Suscripcion),
    /// Torn down.
    Cerrada,
}

/// The view of a connection: its state with the version that its cursor
/// last saw.
pub enum ConexionModelo {
    Negociando,
    Esperando(nat),
    Enviando(nat),
    Cerrada,
}

impl View for Conexion {
    type V = ConexionModelo;

    open spec fn view(&self) -> ConexionModelo {
        match self {
            Conexion::Negociando => ConexionModelo::Negociando,
            Conexion::Esperando(s) => ConexionModelo::Esperando(s@),
            Conexion::Enviando(s) => ConexionModelo::Enviando(s@),
            Conexion::Cerrada => ConexionModelo::Cerrada,
        }
    }
}

/// A connection whose cursor saw `vista` looks at the slot: if the slot has
/// advanced it sends the current value, otherwise it waits.
pub open spec fn atender(vista: nat, r: RanuraModelo) -> (ConexionModelo, AccionConexionModelo) {
    if cambio_pendiente(vista, r) {
        (ConexionModelo::Enviando(r.version), AccionConexionModelo::Enviar(r.valor))
    } else {
        (ConexionModelo::Esperando(vista), AccionConexionModelo::Esperar)
    }
}

/// The transition of a connection: its next state and the action to perform.
pub open spec fn siguiente_conexion(c: ConexionModelo, r: RanuraModelo, e: EventoConexion) -> (
    ConexionModelo,
    AccionConexionModelo,
) {
    match (c, e) {
        (ConexionModelo::Negociando, EventoConexion::NegociacionCorrecta) => (
            ConexionModelo::Esperando(r.version),
            AccionConexionModelo::Esperar,
        ),
        (ConexionModelo::Negociando, EventoConexion::NegociacionFallida) => (
            ConexionModelo::Cerrada,
            AccionConexionModelo::Cerrar,
        ),
        (ConexionModelo::Esperando(vista), EventoConexion::Aviso) => atender(vista, r),
        (ConexionModelo::Enviando(vista), EventoConexion::EnvioCorrecto) => atender(vista, r),
        (ConexionModelo::Enviando(_), EventoConexion::EnvioFallido) => (
            ConexionModelo::Cerrada,
            AccionConexionModelo::Cerrar,
        ),
        (ConexionModelo::Esperando(_), EventoConexion::RanuraCerrada) => (
            ConexionModelo::Cerrada,
            AccionConexionModelo::Cerrar,
        ),
        _ => (c, AccionConexionModelo::Ignorar),
    }
}

impl Conexion {
    /// A connection that has just been accepted.
    pub fn new() -> (c: Conexion)
        ensures
            c@ == ConexionModelo::Negociando,
    {
        Conexion::Negociando
    }

    /// Whether the connection has been torn down.
    pub fn cerrada(&self) -> (b: bool)
        ensures
            b == (self@ == ConexionModelo::Cerrada),
    {
        match self {
            Conexion::Cerrada => true,
            _ => false,
        }
    }

    fn mirar(suscripcion: Suscripcion, ranura: &Ranura) -> (r: (Conexion, AccionConexion))
        ensures
            (r.0@, r.1@) == atender(suscripcion@, ranura@),
    {
        let mut cursor = suscripcion;
        match cursor.tomar_cambio(ranura) {
            Some(valor) => (Conexion::Enviando(cursor), AccionConexion::Enviar(valor)),
            None => (Conexion::Esperando(cursor), AccionConexion::Esperar),
        }
    }

    /// Advances the connection by one event and says what to do next. The
    /// slot is only read; no other connection's cursor is involved.
    pub fn paso(&mut self, ranura: &Ranura, evento: EventoConexion) -> (a: AccionConexion)
        ensures
            (final(self)@, a@) == siguiente_conexion(old(self)@, ranura@, evento),
    {
        let actual = *self;
        let (nueva, accion) = match (actual, evento) {
            (Conexion::Negociando, EventoConexion::NegociacionCorrecta) => (
                Conexion::Esperando(ranura.suscribir()),
                AccionConexion::Esperar,
            ),
            (Conexion::Negociando, EventoConexion::NegociacionFallida) => (
                Conexion::Cerrada,
                AccionConexion::Cerrar,
            ),
            (Conexion::Esperando(s), EventoConexion::Aviso) => Conexion::mirar(s, ranura),
            (Conexion::Enviando(s), EventoConexion::EnvioCorrecto) => Conexion::mirar(s, ranura),
            (Conexion::Enviando(_), EventoConexion::EnvioFallido) => (
                Conexion::Cerrada,
                AccionConexion::Cerrar,
            ),
            (Conexion::Esperando(_), EventoConexion::RanuraCerrada) => (
                Conexion::Cerrada,
                AccionConexion::Cerrar,
            ),
            _ => (actual, AccionConexion::Ignorar),
        };
        *self = nueva;
        accion
    }
}

/// A failed send ends that connection only. The transition of the failing
/// connection yields no new slot and no other cursor, so the next
/// publication is made as it would have been, and any other waiting
/// connection whose cursor is behind it then sends exactly that value.
pub proof fn fallo_de_envio_aislado(
    vista_fallida: nat,
    otra_vista: nat,
    r: RanuraModelo,
    siguiente: Seq<char>,
)
    requires
        otra_vista <= r.version,
    ensures
        siguiente_conexion(
            ConexionModelo::Enviando(vista_fallida),
            r,
            EventoConexion::EnvioFallido,
        ) == (ConexionModelo::Cerrada, AccionConexionModelo::Cerrar),
        siguiente_conexion(
            ConexionModelo::Esperando(otra_vista),
            tras_publicar(r, siguiente),
            EventoConexion::Aviso,
        ) == (ConexionModelo::Enviando(r.version + 1), AccionConexionModelo::Enviar(siguiente)),
{
}

/// A closed connection stays closed and asks for nothing more.
pub proof fn cerrada_es_final(r: RanuraModelo, e: EventoConexion)
    ensures
        siguiente_conexion(ConexionModelo::Cerrada, r, e) == (
            ConexionModelo::Cerrada,
            AccionConexionModelo::Ignorar,
        ),
{
}

/// Whether the cursor of a connection, if it has one, is not ahead of the slot.
pub open spec fn al_dia(c: ConexionModelo, r: RanuraModelo) -> bool {
    match c {
        ConexionModelo::Esperando(vista) => vista <= r.version,
        ConexionModelo::Enviando(vista) => vista <= r.version,
        _ => true,
    }
}

/// A connection never runs ahead of the slot: neither its own steps nor a
/// publication put its cursor past the slot's version.
pub proof fn conexion_al_dia(
    c: ConexionModelo,
    r: RanuraModelo,
    e: EventoConexion,
    valor: Seq<char>,
)
    requires
        al_dia(c, r),
    ensures
        al_dia(siguiente_conexion(c, r, e).0, r),
        al_dia(c, tras_publicar(r, valor)),
{
}

/// Every message that a connection sends is the slot's current value, and
/// the connection sends only when the slot has advanced past its cursor.
pub proof fn solo_envia_lo_actual(c: ConexionModelo, r: RanuraModelo, e: EventoConexion)
    ensures
        match siguiente_conexion(c, r, e).1 {
            AccionConexionModelo::Enviar(v) => {
                &&& v == r.valor
                &&& siguiente_conexion(c, r, e).0 == ConexionModelo::Enviando(r.version)
                &&& match c {
                    ConexionModelo::Esperando(vista) => vista < r.version,
                    ConexionModelo::Enviando(vista) => vista < r.version,
                    _ => false,
                }
            },
            _ => true,
        },
{
}

} // verus!
