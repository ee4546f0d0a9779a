use monitor_sistema::formato::{anexar_decimal, bytes_a_formato_humano, texto_decimal};

fn con_coma_flotante(bytes: u64) -> String {
    let b = bytes as f64;
    if bytes >= 1073741824 {
        format!("{:.2} GB", b / 1073741824_f64)
    } else if bytes >= 1048576 {
        format!("{:.2} MB", b / 1048576_f64)
    } else if bytes >= 1024 {
        format!("{:.2} KB", b / 1024_f64)
    } else {
        format!("{} bytes", b)
    }
}

#[test]
fn un_gib_exacto() {
    assert_eq!(bytes_a_formato_humano(1 << 30), "1.00 GB");
}

#[test]
fn justo_bajo_un_gib_va_en_mb() {
    assert_eq!(bytes_a_formato_humano((1 << 30) - 1), "1024.00 MB");
}

#[test]
fn un_mib_exacto() {
    assert_eq!(bytes_a_formato_humano(1 << 20), "1.00 MB");
}

#[test]
fn justo_bajo_un_mib_va_en_kb() {
    assert_eq!(bytes_a_formato_humano((1 << 20) - 1), "1024.00 KB");
}

#[test]
fn un_kib_exacto() {
    assert_eq!(bytes_a_formato_humano(1024), "1.00 KB");
}

#[test]
fn bajo_un_kib_va_en_bytes() {
    assert_eq!(bytes_a_formato_humano(1023), "1023 bytes");
    assert_eq!(bytes_a_formato_humano(0), "0 bytes");
    assert_eq!(bytes_a_formato_humano(1), "1 bytes");
    assert_eq!(bytes_a_formato_humano(10), "10 bytes");
}

#[test]
fn valores_intermedios() {
    assert_eq!(bytes_a_formato_humano(1536), "1.50 KB");
    assert_eq!(bytes_a_formato_humano(1500), "1.46 KB");
    assert_eq!(bytes_a_formato_humano(5 * (1 << 20) + (1 << 19)), "5.50 MB");
    assert_eq!(bytes_a_formato_humano(17179869184), "16.00 GB");
    assert_eq!(bytes_a_formato_humano(8_000_000_000), "7.45 GB");
    assert_eq!(bytes_a_formato_humano(123_456_789), "117.74 MB");
}

#[test]
fn empates_al_par() {
    // 1152 / 1024 = 1.125 and 1408 / 1024 = 1.375, both exactly.
    assert_eq!(bytes_a_formato_humano(1152), "1.12 KB");
    assert_eq!(bytes_a_formato_humano(1408), "1.38 KB");
    assert_eq!(bytes_a_formato_humano(1152 << 10), "1.12 MB");
    assert_eq!(bytes_a_formato_humano(1408 << 20), "1.38 GB");
}

#[test]
fn redondeo_que_cambia_la_parte_entera() {
    // 2047 / 1024 = 1.99902...
    assert_eq!(bytes_a_formato_humano(2047), "2.00 KB");
    assert_eq!(bytes_a_formato_humano(1048575), "1024.00 KB");
}

#[test]
fn maximo_representable() {
    assert_eq!(bytes_a_formato_humano(u64::MAX), "17179869184.00 GB");
}

#[test]
fn coincide_con_la_division_en_coma_flotante() {
    let mut b: u64 = 0;
    while b < 300_000 {
        assert_eq!(bytes_a_formato_humano(b), con_coma_flotante(b), "{}", b);
        b += 1;
    }
    let mut b: u64 = 1;
    while b < (1 << 53) {
        for d in [0_u64, 1, 2, 127, 128, 129, 5242, 5243, 5368709, 5368710] {
            let v = b.saturating_add(d).min((1 << 53) - 1);
            assert_eq!(bytes_a_formato_humano(v), con_coma_flotante(v), "{}", v);
            let w = b.saturating_sub(d);
            assert_eq!(bytes_a_formato_humano(w), con_coma_flotante(w), "{}", w);
        }
        b = b * 3 + 7;
    }
    let mut k: u64 = 0;
    while k < 4096 {
        let v = (1 << 30) + k * 128 * 1024 * 1024 / 64;
        assert_eq!(bytes_a_formato_humano(v), con_coma_flotante(v), "{}", v);
        let w = (1 << 20) + k * 128;
        assert_eq!(bytes_a_formato_humano(w), con_coma_flotante(w), "{}", w);
        k += 1;
    }
}

#[test]
fn el_valor_mostrado_no_decrece() {
    let muestras: [u64; 12] = [
        1024, 1025, 1029, 1030, 1152, 1153, 2047, 2048, 500_000, 1_000_000, 1_048_574, 1_048_575,
    ];
    let mut previo = 0.0_f64;
    for b in muestras {
        let texto = bytes_a_formato_humano(b);
        let numero: f64 = texto.strip_suffix(" KB").unwrap().parse().unwrap();
        assert!(numero >= previo, "{}", b);
        previo = numero;
    }
}

#[test]
fn numerales_decimales() {
    assert_eq!(texto_decimal(0), "0");
    assert_eq!(texto_decimal(7), "7");
    assert_eq!(texto_decimal(10), "10");
    assert_eq!(texto_decimal(1234567890), "1234567890");
    assert_eq!(texto_decimal(u64::MAX), "18446744073709551615");
    let mut s = String::from("pid ");
    anexar_decimal(&mut s, 4096);
    assert_eq!(s, "pid 4096");
}
