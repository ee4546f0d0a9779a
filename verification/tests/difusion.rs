use monitor_sistema::adquisicion::{paso_adquisicion, AccionCiclo, INTERVALO_SEGUNDOS};
use monitor_sistema::conexion::{AccionConexion, Conexion, EventoConexion};
use monitor_sistema::difusion::Ranura;

fn publicar(ranura: &mut Ranura, valor: &str) {
    assert!(ranura.puede_publicar());
    ranura.publicar(valor.to_string());
}

#[test]
fn ranura_nueva_esta_vacia() {
    let ranura = Ranura::new();
    assert_eq!(ranura.version(), 0);
    assert_eq!(ranura.valor(), "");
    assert!(ranura.puede_publicar());
}

#[test]
fn publicar_sustituye_y_avanza() {
    let mut ranura = Ranura::new();
    publicar(&mut ranura, "a");
    assert_eq!(ranura.version(), 1);
    assert_eq!(ranura.valor(), "a");
    publicar(&mut ranura, "b");
    assert_eq!(ranura.version(), 2);
    assert_eq!(ranura.valor(), "b");
}

#[test]
fn suscriptor_tardio_no_ve_lo_anterior() {
    let mut ranura = Ranura::new();
    publicar(&mut ranura, "uno");
    publicar(&mut ranura, "dos");
    let mut cursor = ranura.suscribir();
    assert_eq!(cursor.vista(), 2);
    assert!(!cursor.hay_cambio(&ranura));
    assert_eq!(cursor.tomar_cambio(&ranura), None);
    assert_eq!(cursor.vista(), 2);
    publicar(&mut ranura, "tres");
    assert!(cursor.hay_cambio(&ranura));
    assert_eq!(cursor.tomar_cambio(&ranura), Some("tres".to_string()));
    assert_eq!(cursor.vista(), 3);
    assert_eq!(cursor.tomar_cambio(&ranura), None);
}

#[test]
fn suscriptor_lento_solo_ve_lo_ultimo() {
    let mut ranura = Ranura::new();
    let mut cursor = ranura.suscribir();
    publicar(&mut ranura, "p1");
    publicar(&mut ranura, "p2");
    publicar(&mut ranura, "p3");
    assert_eq!(cursor.tomar_cambio(&ranura), Some("p3".to_string()));
    assert_eq!(cursor.vista(), 3);
    assert!(!cursor.hay_cambio(&ranura));
    assert_eq!(cursor.tomar_cambio(&ranura), None);
}

#[test]
fn los_cursores_son_independientes() {
    let mut ranura = Ranura::new();
    let mut a = ranura.suscribir();
    publicar(&mut ranura, "x");
    let mut b = ranura.suscribir();
    assert_eq!(a.tomar_cambio(&ranura), Some("x".to_string()));
    assert_eq!(b.tomar_cambio(&ranura), None);
    publicar(&mut ranura, "y");
    assert_eq!(b.tomar_cambio(&ranura), Some("y".to_string()));
    assert_eq!(a.tomar_cambio(&ranura), Some("y".to_string()));
}

#[test]
fn ciclo_con_exito_publica() {
    let mut ranura = Ranura::new();
    let accion = paso_adquisicion(&mut ranura, Ok("{}".to_string()));
    assert!(matches!(accion, AccionCiclo::Dormir));
    assert_eq!(ranura.version(), 1);
    assert_eq!(ranura.valor(), "{}");
    assert_eq!(INTERVALO_SEGUNDOS, 2);
}

#[test]
fn ciclo_fallido_no_publica_y_el_siguiente_si() {
    let mut ranura = Ranura::new();
    publicar(&mut ranura, "previo");
    let accion = paso_adquisicion(&mut ranura, Err("fallo".to_string()));
    match accion {
        AccionCiclo::InformarYDormir(e) => assert_eq!(e, "fallo"),
        AccionCiclo::Dormir => panic!("a failed cycle must be reported"),
    }
    assert_eq!(ranura.version(), 1);
    assert_eq!(ranura.valor(), "previo");
    let accion = paso_adquisicion(&mut ranura, Ok("nuevo".to_string()));
    assert!(matches!(accion, AccionCiclo::Dormir));
    assert_eq!(ranura.version(), 2);
    assert_eq!(ranura.valor(), "nuevo");
}

#[test]
fn negociacion_fallida_cierra() {
    let ranura = Ranura::new();
    let mut c = Conexion::new();
    assert!(!c.cerrada());
    let accion = c.paso(&ranura, EventoConexion::NegociacionFallida);
    assert!(matches!(accion, AccionConexion::Cerrar));
    assert!(c.cerrada());
    let accion = c.paso(&ranura, EventoConexion::Aviso);
    assert!(matches!(accion, AccionConexion::Ignorar));
    assert!(c.cerrada());
}

#[test]
fn conexion_reenvia_cada_cambio() {
    let mut ranura = Ranura::new();
    publicar(&mut ranura, "antes");
    let mut c = Conexion::new();
    assert!(matches!(c.paso(&ranura, EventoConexion::NegociacionCorrecta), AccionConexion::Esperar));
    assert!(matches!(c, Conexion::Esperando(s) if s.vista() == 1));
    // A wake-up without a publication sends nothing.
    assert!(matches!(c.paso(&ranura, EventoConexion::Aviso), AccionConexion::Esperar));
    publicar(&mut ranura, "despues");
    match c.paso(&ranura, EventoConexion::Aviso) {
        AccionConexion::Enviar(v) => assert_eq!(v, "despues"),
        _ => panic!("the change must be sent"),
    }
    assert!(matches!(c, Conexion::Enviando(s) if s.vista() == 2));
    assert!(matches!(c.paso(&ranura, EventoConexion::EnvioCorrecto), AccionConexion::Esperar));
    assert!(matches!(c, Conexion::Esperando(s) if s.vista() == 2));
}

#[test]
fn cambio_durante_el_envio_se_reenvia_al_terminar() {
    let mut ranura = Ranura::new();
    let mut c = Conexion::new();
    c.paso(&ranura, EventoConexion::NegociacionCorrecta);
    publicar(&mut ranura, "a");
    assert!(matches!(c.paso(&ranura, EventoConexion::Aviso), AccionConexion::Enviar(_)));
    publicar(&mut ranura, "b");
    publicar(&mut ranura, "c");
    // While the message is on its way a wake-up is not acted on.
    assert!(matches!(c.paso(&ranura, EventoConexion::Aviso), AccionConexion::Ignorar));
    match c.paso(&ranura, EventoConexion::EnvioCorrecto) {
        AccionConexion::Enviar(v) => assert_eq!(v, "c"),
        _ => panic!("the latest value must be sent"),
    }
}

#[test]
fn eventos_fuera_de_lugar_se_ignoran() {
    let ranura = Ranura::new();
    let mut c = Conexion::new();
    assert!(matches!(c.paso(&ranura, EventoConexion::EnvioCorrecto), AccionConexion::Ignorar));
    assert!(matches!(c.paso(&ranura, EventoConexion::EnvioFallido), AccionConexion::Ignorar));
    assert!(matches!(c.paso(&ranura, EventoConexion::Aviso), AccionConexion::Ignorar));
    assert!(matches!(c, Conexion::Negociando));
    c.paso(&ranura, EventoConexion::NegociacionCorrecta);
    assert!(matches!(c.paso(&ranura, EventoConexion::NegociacionCorrecta), AccionConexion::Ignorar));
    assert!(matches!(c.paso(&ranura, EventoConexion::EnvioFallido), AccionConexion::Ignorar));
    assert!(matches!(c, Conexion::Esperando(_)));
}

#[test]
fn fallo_de_envio_no_afecta_a_los_demas() {
    let mut ranura = Ranura::new();
    let mut a = Conexion::new();
    let mut b = Conexion::new();
    a.paso(&ranura, EventoConexion::NegociacionCorrecta);
    b.paso(&ranura, EventoConexion::NegociacionCorrecta);
    publicar(&mut ranura, "uno");
    assert!(matches!(a.paso(&ranura, EventoConexion::Aviso), AccionConexion::Enviar(_)));
    assert!(matches!(b.paso(&ranura, EventoConexion::Aviso), AccionConexion::Enviar(_)));
    assert!(matches!(a.paso(&ranura, EventoConexion::EnvioFallido), AccionConexion::Cerrar));
    assert!(a.cerrada());
    assert!(matches!(b.paso(&ranura, EventoConexion::EnvioCorrecto), AccionConexion::Esperar));
    assert_eq!(ranura.version(), 1);
    assert!(matches!(paso_adquisicion(&mut ranura, Ok("dos".to_string())), AccionCiclo::Dormir));
    assert_eq!(ranura.valor(), "dos");
    match b.paso(&ranura, EventoConexion::Aviso) {
        AccionConexion::Enviar(v) => assert_eq!(v, "dos"),
        _ => panic!("the other connection must receive the next value"),
    }
    assert!(matches!(a.paso(&ranura, EventoConexion::Aviso), AccionConexion::Ignorar));
}

#[test]
fn ranura_cerrada_termina_la_espera() {
    let mut ranura = Ranura::new();
    let mut c = Conexion::new();
    // Before the handshake the event does not belong to the connection.
    assert!(matches!(c.paso(&ranura, EventoConexion::RanuraCerrada), AccionConexion::Ignorar));
    assert!(matches!(c, Conexion::Negociando));
    c.paso(&ranura, EventoConexion::NegociacionCorrecta);
    publicar(&mut ranura, "a");
    assert!(matches!(c.paso(&ranura, EventoConexion::Aviso), AccionConexion::Enviar(_)));
    // While a message is on its way the end of the wait is not acted on.
    assert!(matches!(c.paso(&ranura, EventoConexion::RanuraCerrada), AccionConexion::Ignorar));
    assert!(matches!(c, Conexion::Enviando(_)));
    assert!(matches!(c.paso(&ranura, EventoConexion::EnvioCorrecto), AccionConexion::Esperar));
    assert!(matches!(c.paso(&ranura, EventoConexion::RanuraCerrada), AccionConexion::Cerrar));
    assert!(c.cerrada());
}

#[test]
fn clientes_a_distinto_ritmo_acaban_con_lo_ultimo() {
    let mut ranura = Ranura::new();
    let mut rapido = Conexion::new();
    let mut lento = Conexion::new();
    rapido.paso(&ranura, EventoConexion::NegociacionCorrecta);
    lento.paso(&ranura, EventoConexion::NegociacionCorrecta);
    let mut al_rapido: Vec<String> = Vec::new();
    let mut al_lento: Vec<String> = Vec::new();
    for json in ["j1", "j2", "j3"] {
        assert!(matches!(paso_adquisicion(&mut ranura, Ok(json.to_string())), AccionCiclo::Dormir));
        if let AccionConexion::Enviar(m) = rapido.paso(&ranura, EventoConexion::Aviso) {
            al_rapido.push(m);
        }
        assert!(matches!(rapido.paso(&ranura, EventoConexion::EnvioCorrecto), AccionConexion::Esperar));
    }
    if let AccionConexion::Enviar(m) = lento.paso(&ranura, EventoConexion::Aviso) {
        al_lento.push(m);
    }
    assert!(matches!(lento.paso(&ranura, EventoConexion::EnvioCorrecto), AccionConexion::Esperar));
    assert_eq!(al_rapido, vec!["j1", "j2", "j3"]);
    assert_eq!(al_lento, vec!["j3"]);
    assert_eq!(ranura.valor(), "j3");
    assert_eq!(ranura.version(), 3);
}

#[test]
fn ciclos_fallidos_no_dejan_rastro() {
    let mut ranura = Ranura::new();
    let resultados: Vec<Result<String, String>> = vec![
        Ok("a".to_string()),
        Err("x".to_string()),
        Ok("b".to_string()),
        Err("y".to_string()),
    ];
    let mut valores: Vec<String> = Vec::new();
    for r in resultados {
        let antes = ranura.version();
        paso_adquisicion(&mut ranura, r);
        if ranura.version() != antes {
            valores.push(ranura.valor());
        }
    }
    assert_eq!(valores, vec!["a", "b"]);
    assert_eq!(ranura.version(), 2);
}
